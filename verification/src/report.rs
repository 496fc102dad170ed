//! Rendering of per-file outcomes into report lines, tiered by verbosity:
//! nothing at level zero, the file's name at level one, per-property
//! before/after detail above that, and the canonical path from level three
//! on. The library only builds the lines; writing them to a stream is the
//! caller's.

use vstd::prelude::*;
use crate::changes::{AppliedChange, Change};
use crate::file::File;
use crate::options::{Group, Options, User};

verus! {

/// The character for the octal digit `d` (of a value below eight).
pub open spec fn octal_digit_char(d: nat) -> char {
    if d == 1 {
        '1'
    } else if d == 2 {
        '2'
    } else if d == 3 {
        '3'
    } else if d == 4 {
        '4'
    } else if d == 5 {
        '5'
    } else if d == 6 {
        '6'
    } else if d == 7 {
        '7'
    } else {
        '0'
    }
}

/// The octal digits of `n`, most significant first; empty for zero.
pub open spec fn octal_digits(n: nat) -> Seq<char>
    decreases n,
{
    if n == 0 {
        Seq::<char>::empty()
    } else {
        octal_digits(n / 8).push(octal_digit_char(n % 8))
    }
}

/// The octal numeral for `n`, zero-padded on the left to at least seven
/// digits — the rendering used for mode values in report lines.
pub open spec fn spec_format_mode(n: nat) -> Seq<char> {
    let digits = if n == 0 {
        seq!['0']
    } else {
        octal_digits(n)
    };
    if digits.len() >= 7 {
        digits
    } else {
        Seq::new((7 - digits.len()) as nat, |i: int| '0') + digits
    }
}

/// The single-character string for the octal digit `d`.
fn octal_digit_str(d: u32) -> (r: &'static str)
    requires
        d < 8,
    ensures
        r@ =~= seq![octal_digit_char(d as nat)],
{
    proof {
        reveal_strlit("0");
        reveal_strlit("1");
        reveal_strlit("2");
        reveal_strlit("3");
        reveal_strlit("4");
        reveal_strlit("5");
        reveal_strlit("6");
        reveal_strlit("7");
    }
    match d {
        0 => "0",
        1 => "1",
        2 => "2",
        3 => "3",
        4 => "4",
        5 => "5",
        6 => "6",
        _ => "7",
    }
}

/// The octal digits of `n`, most significant first; the empty string for
/// zero.
fn octal_digits_string(n: u32) -> (r: String)
    ensures
        r@ == octal_digits(n as nat),
    decreases n,
{
    if n == 0 {
        String::new()
    } else {
        let rest = octal_digits_string(n / 8);
        let r = rest.concat(octal_digit_str(n % 8));
        proof {
            assert(r@ =~= octal_digits(n as nat));
        }
        r
    }
}

/// Render a mode value as a zero-padded octal numeral of at least seven
/// digits.
pub fn format_mode(mode: u32) -> (r: String)
    ensures
        r@ == spec_format_mode(mode as nat),
{
    let digits = if mode == 0 {
        let zero = String::from_str("0");
        proof {
            reveal_strlit("0");
            assert(zero@ =~= seq!['0']);
        }
        zero
    } else {
        octal_digits_string(mode)
    };
    let ghost digit_view = digits@;
    let len: usize = digits.as_str().unicode_len();
    if len >= 7 {
        proof {
            assert(digits@ =~= spec_format_mode(mode as nat));
        }
        return digits;
    }
    let mut padded = digits;
    let mut k: usize = len;
    while k < 7
        invariant
            len <= k <= 7,
            padded@ =~= Seq::new((k - len) as nat, |i: int| '0') + digit_view,
        decreases 7 - k,
    {
        let widened = String::from_str("0").concat(padded.as_str());
        proof {
            reveal_strlit("0");
            assert(widened@ =~= Seq::new((k + 1 - len) as nat, |i: int| '0') + digit_view);
        }
        padded = widened;
        k = k + 1;
    }
    proof {
        assert(padded@ =~= spec_format_mode(mode as nat));
    }
    padded
}

/// The before/after description of an ownership change's owner property.
pub open spec fn spec_owner_part(file: File, new_owner: User) -> Seq<char> {
    "owner "@ + file.owner.name@ + " -> "@ + new_owner.name@
}

/// The before/after description of an ownership change's group property.
pub open spec fn spec_group_part(file: File, new_group: Group) -> Seq<char> {
    "group "@ + file.group.name@ + " -> "@ + new_group.name@
}

/// The description of one change against the snapshot it was computed
/// from: the owner and group parts that the change carries, joined with a
/// comma, or the before/after mode values in octal.
pub open spec fn spec_describe_change(file: File, change: Change) -> Seq<char> {
    match change {
        Change::Owner(chown) => match (chown.owner, chown.group) {
            (Some(new_owner), Some(new_group)) => spec_owner_part(file, new_owner) + ", "@
                + spec_group_part(file, new_group),
            (Some(new_owner), None) => spec_owner_part(file, new_owner),
            (None, Some(new_group)) => spec_group_part(file, new_group),
            (None, None) => Seq::<char>::empty(),
        },
        Change::Mode(chmod) => "mode "@ + spec_format_mode(file.mode as nat) + " -> "@
            + spec_format_mode(chmod.mode as nat),
    }
}

/// The descriptions of the successful changes among `applied`, in order.
pub open spec fn spec_success_descriptions(file: File, applied: Seq<AppliedChange>) -> Seq<
    Seq<char>,
>
    decreases applied.len(),
{
    if applied.len() == 0 {
        Seq::<Seq<char>>::empty()
    } else {
        let rest = spec_success_descriptions(file, applied.drop_last());
        if applied.last().error is None {
            rest.push(spec_describe_change(file, applied.last().change))
        } else {
            rest
        }
    }
}

/// `parts` joined with the separator `sep`.
pub open spec fn spec_join(parts: Seq<Seq<char>>, sep: Seq<char>) -> Seq<char>
    decreases parts.len(),
{
    if parts.len() == 0 {
        Seq::<char>::empty()
    } else if parts.len() == 1 {
        parts[0]
    } else {
        spec_join(parts.drop_last(), sep) + sep + parts.last()
    }
}

/// Per-file report builder: renders outcomes into stdout and stderr lines
/// under the run's verbosity, naming the command that failures should be
/// attributed to.
#[derive(Debug)]
pub struct Report {
    pub command: String,
    pub verbose: u8,
}

impl Report {
    /// What `file_name` returns: the as-given name up to verbosity two,
    /// the canonical path above that.
    pub open spec fn spec_file_name(self, file: File) -> Seq<char> {
        if self.verbose <= 2 {
            file.name@
        } else {
            file.abs_path@
        }
    }

    /// The line that reports a failed change: the command, the file's
    /// name, the change's description in parentheses, and the failure.
    pub open spec fn spec_failure_line(self, file: File, applied: AppliedChange) -> Seq<char> {
        self.command@ + ": "@ + self.spec_file_name(file) + ": ("@ + spec_describe_change(
            file,
            applied.change,
        ) + "): "@ + "ERROR"@
    }

    /// The stderr lines for `applied`: one failure line per failed change,
    /// in order.
    pub open spec fn spec_failure_lines(self, file: File, applied: Seq<AppliedChange>) -> Seq<
        Seq<char>,
    >
        decreases applied.len(),
    {
        if applied.len() == 0 {
            Seq::<Seq<char>>::empty()
        } else {
            let rest = self.spec_failure_lines(file, applied.drop_last());
            if applied.last().error is Some {
                rest.push(self.spec_failure_line(file, applied.last()))
            } else {
                rest
            }
        }
    }

    /// The stdout lines for `applied`: nothing when no change succeeded or
    /// verbosity is zero, the file's name alone at verbosity one, and the
    /// name with the successful changes' descriptions above that.
    pub open spec fn spec_success_lines(self, file: File, applied: Seq<AppliedChange>) -> Seq<
        Seq<char>,
    > {
        let descriptions = spec_success_descriptions(file, applied);
        if descriptions.len() == 0 || self.verbose == 0 {
            Seq::<Seq<char>>::empty()
        } else if self.verbose == 1 {
            seq![self.spec_file_name(file)]
        } else {
            seq![self.spec_file_name(file) + ": "@ + spec_join(descriptions, ", "@)]
        }
    }

    /// The lines that report a file needing no changes: nothing at
    /// verbosity zero, the file's name at one, the name with a note above
    /// that.
    pub open spec fn spec_no_changes_lines(self, file: File) -> Seq<Seq<char>> {
        if self.verbose == 0 {
            Seq::<Seq<char>>::empty()
        } else if self.verbose == 1 {
            seq![self.spec_file_name(file)]
        } else {
            seq![self.spec_file_name(file) + ": no changes"@]
        }
    }

    /// The line that reports a target that was not found.
    pub open spec fn spec_missing_target_line(self, name: Seq<char>) -> Seq<char> {
        self.command@ + ": "@ + name + ": No such file or directory"@
    }

    /// A report builder for one run: failures are attributed to `command`,
    /// and the configuration's verbosity tiers the output.
    pub fn new(command: String, options: &Options) -> (r: Report)
        ensures
            r.command == command,
            r.verbose == options.verbose,
    {
        Report { command, verbose: options.verbose }
    }

    /// The name under which `file` is reported at this verbosity: as given
    /// up to level two, canonical above that.
    pub fn file_name<'a>(&self, file: &'a File) -> (r: &'a str)
        ensures
            r@ == self.spec_file_name(*file),
    {
        if self.verbose <= 2 {
            file.name.as_str()
        } else {
            file.abs_path.as_str()
        }
    }

    /// Describe one applied change against the snapshot it was computed
    /// from, property by property: `owner old -> new`, `group old -> new`,
    /// or `mode old -> new` in octal.
    pub fn describe_change(&self, file: &File, applied_change: &AppliedChange) -> (r: String)
        ensures
            r@ == spec_describe_change(*file, applied_change.change),
    {
        match &applied_change.change {
            Change::Owner(chown) => {
                match (&chown.owner, &chown.group) {
                    (Some(new_owner), Some(new_group)) => {
                        let r = String::from_str("owner ").concat(file.owner.name.as_str()).concat(
                            " -> ",
                        ).concat(new_owner.name.as_str()).concat(", ").concat("group ").concat(
                            file.group.name.as_str(),
                        ).concat(" -> ").concat(new_group.name.as_str());
                        proof {
                            assert(r@ =~= spec_describe_change(*file, applied_change.change));
                        }
                        r
                    },
                    (Some(new_owner), None) => {
                        let r = String::from_str("owner ").concat(file.owner.name.as_str()).concat(
                            " -> ",
                        ).concat(new_owner.name.as_str());
                        proof {
                            assert(r@ =~= spec_describe_change(*file, applied_change.change));
                        }
                        r
                    },
                    (None, Some(new_group)) => {
                        let r = String::from_str("group ").concat(file.group.name.as_str()).concat(
                            " -> ",
                        ).concat(new_group.name.as_str());
                        proof {
                            assert(r@ =~= spec_describe_change(*file, applied_change.change));
                        }
                        r
                    },
                    (None, None) => String::new(),
                }
            },
            Change::Mode(chmod) => {
                let r = String::from_str("mode ").concat(format_mode(file.mode).as_str()).concat(
                    " -> ",
                ).concat(format_mode(chmod.mode).as_str());
                proof {
                    assert(r@ =~= spec_describe_change(*file, applied_change.change));
                }
                r
            },
        }
    }

    /// Render the outcomes of one file's changes: the stdout lines for the
    /// successes, tiered by verbosity, and one stderr line per failure.
    /// Failed changes never suppress the successes beside them, and each
    /// failure line names its own change only.
    pub fn changes_applied(&self, file: &File, applied_changes: &Vec<AppliedChange>) -> (r: (
        Vec<String>,
        Vec<String>,
    ))
        ensures
            r.0@.map_values(|s: String| s@) == self.spec_success_lines(*file, applied_changes@),
            r.1@.map_values(|s: String| s@) == self.spec_failure_lines(*file, applied_changes@),
    {
        let mut descriptions: Vec<String> = Vec::new();
        let mut joined: String = String::new();
        let mut err_lines: Vec<String> = Vec::new();
        let mut i: usize = 0;
        while i < applied_changes.len()
            invariant
                0 <= i <= applied_changes@.len(),
                descriptions@.map_values(|s: String| s@) =~= spec_success_descriptions(
                    *file,
                    applied_changes@.take(i as int),
                ),
                joined@ =~= spec_join(
                    spec_success_descriptions(*file, applied_changes@.take(i as int)),
                    ", "@,
                ),
                err_lines@.map_values(|s: String| s@) =~= self.spec_failure_lines(
                    *file,
                    applied_changes@.take(i as int),
                ),
            decreases applied_changes@.len() - i,
        {
            let applied_change = &applied_changes[i];
            proof {
                assert(applied_changes@.take(i + 1).drop_last() =~= applied_changes@.take(i as int));
                assert(applied_changes@.take(i + 1).last() == applied_changes@[i as int]);
            }
            let description = self.describe_change(file, applied_change);
            if applied_change.error.is_none() {
                if descriptions.len() == 0 {
                    joined = description.clone();
                } else {
                    let ghost old_descriptions = descriptions@.map_values(|s: String| s@);
                    joined = joined.concat(", ").concat(description.as_str());
                    proof {
                        assert(old_descriptions.push(description@).drop_last() =~= old_descriptions);
                    }
                }
                descriptions.push(description);
            } else {
                let line = String::from_str(self.command.as_str()).concat(": ").concat(
                    self.file_name(file),
                ).concat(": (").concat(description.as_str()).concat("): ").concat("ERROR");
                proof {
                    assert(line@ =~= self.spec_failure_line(
                        *file,
                        applied_changes@[i as int],
                    ));
                }
                err_lines.push(line);
            }
            i = i + 1;
        }
        proof {
            assert(applied_changes@.take(applied_changes@.len() as int) =~= applied_changes@);
        }
        let mut out_lines: Vec<String> = Vec::new();
        if descriptions.len() > 0 && self.verbose > 0 {
            if self.verbose == 1 {
                out_lines.push(String::from_str(self.file_name(file)));
            } else {
                out_lines.push(
                    String::from_str(self.file_name(file)).concat(": ").concat(joined.as_str()),
                );
            }
        }
        proof {
            assert(out_lines@.map_values(|s: String| s@) =~= self.spec_success_lines(
                *file,
                applied_changes@,
            ));
            assert(err_lines@.map_values(|s: String| s@) =~= self.spec_failure_lines(
                *file,
                applied_changes@,
            ));
        }
        (out_lines, err_lines)
    }

    /// The lines that report a file with nothing to do — a valid, common
    /// outcome, tiered by verbosity like a change report.
    pub fn no_changes(&self, file: &File) -> (r: Vec<String>)
        ensures
            r@.map_values(|s: String| s@) == self.spec_no_changes_lines(*file),
    {
        let mut lines: Vec<String> = Vec::new();
        if self.verbose == 1 {
            lines.push(String::from_str(self.file_name(file)));
        } else if self.verbose >= 2 {
            lines.push(String::from_str(self.file_name(file)).concat(": no changes"));
        }
        proof {
            assert(lines@.map_values(|s: String| s@) =~= self.spec_no_changes_lines(*file));
        }
        lines
    }

    /// The line that reports a target that did not resolve to an existing,
    /// fully-describable file.
    pub fn missing_target(&self, name: &str) -> (r: String)
        ensures
            r@ == self.spec_missing_target_line(name@),
    {
        let r = String::from_str(self.command.as_str()).concat(": ").concat(name).concat(
            ": No such file or directory",
        );
        proof {
            assert(r@ =~= self.spec_missing_target_line(name@));
        }
        r
    }
}

} // verus!
