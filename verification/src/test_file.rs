//! Benchmark input files. A test file is a bare file name of the shape
//! `<width>x<height>.<extension>` (for example `1920x1080.raw`) inside a
//! directory; the resolution is read from the leading `<digits>x<digits>`
//! pattern, each run at least two digits long, and the extension from the
//! characters after the last dot.

use vstd::prelude::*;
use vstd::string::*;

verus! {

/// Why a file name was rejected.
#[derive(Debug, Clone, Copy, PartialEq, Eq, Structural)]
pub enum NameError {
    /// No extension: the name has no `.` past its first character.
    NoExtension,
    /// The name does not begin `<digits>x<digits>` with at least two digits
    /// on each side of the `x`.
    NoResolution,
    /// A dimension's digits name a value that does not fit in `usize`.
    ResolutionOverflow,
}

/// Decimal digit characters.
pub open spec fn spec_is_digit(c: char) -> bool {
    ||| c == '0'
    ||| c == '1'
    ||| c == '2'
    ||| c == '3'
    ||| c == '4'
    ||| c == '5'
    ||| c == '6'
    ||| c == '7'
    ||| c == '8'
    ||| c == '9'
}

/// The numeric value of a digit character.
pub open spec fn spec_digit_val(c: char) -> nat {
    if c == '0' {
        0
    } else if c == '1' {
        1
    } else if c == '2' {
        2
    } else if c == '3' {
        3
    } else if c == '4' {
        4
    } else if c == '5' {
        5
    } else if c == '6' {
        6
    } else if c == '7' {
        7
    } else if c == '8' {
        8
    } else {
        9
    }
}

/// The length of the run of digit characters starting at `from`.
pub open spec fn spec_digit_run(s: Seq<char>, from: nat) -> nat
    decreases s.len() - from,
    when from <= s.len()
{
    if from >= s.len() || !spec_is_digit(s[from as int]) {
        0
    } else {
        1 + spec_digit_run(s, from + 1)
    }
}

/// The value of the `len` digit characters starting at `from`, most
/// significant first.
pub open spec fn spec_digits_val(s: Seq<char>, from: nat, len: nat) -> nat
    decreases len,
{
    if len == 0 {
        0
    } else {
        spec_digits_val(s, from, (len - 1) as nat) * 10 + spec_digit_val(
            s[(from + len - 1) as int],
        )
    }
}

/// Whether the name begins `<digits>x<digits>` with at least two digits on
/// each side: the shape the resolution is read from.
pub open spec fn spec_res_shape(s: Seq<char>) -> bool {
    let i = spec_digit_run(s, 0);
    &&& i >= 2
    &&& i < s.len()
    &&& s[i as int] == 'x'
    &&& spec_digit_run(s, i + 1) >= 2
}

/// The width named by the name's leading digit run.
pub open spec fn spec_res_width(s: Seq<char>) -> nat {
    spec_digits_val(s, 0, spec_digit_run(s, 0))
}

/// The height named by the digit run after the `x`.
pub open spec fn spec_res_height(s: Seq<char>) -> nat {
    let i = spec_digit_run(s, 0);
    spec_digits_val(s, i + 1, spec_digit_run(s, i + 1))
}

/// The index of the last `.` of the name, or `-1` when it has none.
pub open spec fn spec_last_dot(s: Seq<char>) -> int
    decreases s.len(),
{
    if s.len() == 0 {
        -1
    } else if s[s.len() - 1] == '.' {
        s.len() - 1
    } else {
        spec_last_dot(s.drop_last())
    }
}

/// Whether the name carries an extension: a `.` past its first character.
pub open spec fn spec_has_extension(s: Seq<char>) -> bool {
    spec_last_dot(s) > 0
}

/// The extension: the characters after the last `.`.
pub open spec fn spec_extension(s: Seq<char>) -> Seq<char> {
    s.subrange(spec_last_dot(s) + 1, s.len() as int)
}

proof fn lemma_last_dot_at(s: Seq<char>, p: int)
    requires
        0 <= p < s.len(),
        s[p] == '.',
        forall|k: int| p < k < s.len() ==> s[k] != '.',
    ensures
        spec_last_dot(s) == p,
    decreases s.len(),
{
    if p < s.len() - 1 {
        lemma_last_dot_at(s.drop_last(), p);
    }
}

proof fn lemma_last_dot_none(s: Seq<char>)
    requires
        forall|k: int| 0 <= k < s.len() ==> s[k] != '.',
    ensures
        spec_last_dot(s) == -1,
    decreases s.len(),
{
    if s.len() > 0 {
        lemma_last_dot_none(s.drop_last());
    }
}

proof fn lemma_digit_run_value(s: Seq<char>, from: nat, e: nat)
    requires
        from <= e <= s.len(),
        forall|k: int| from <= k < e ==> spec_is_digit(s[k]),
        e == s.len() || !spec_is_digit(s[e as int]),
    ensures
        spec_digit_run(s, from) == e - from,
    decreases e - from,
{
    if from < e {
        lemma_digit_run_value(s, from + 1, e);
    }
}

proof fn lemma_digit_run_digits(s: Seq<char>, from: nat)
    requires
        from <= s.len(),
    ensures
        forall|k: int| from <= k < from + spec_digit_run(s, from) ==> spec_is_digit(s[k]),
    decreases s.len() - from,
{
    if from < s.len() && spec_is_digit(s[from as int]) {
        lemma_digit_run_digits(s, from + 1);
    }
}

proof fn lemma_digits_val_monotone(s: Seq<char>, from: nat, l1: nat, l2: nat)
    requires
        l1 <= l2,
    ensures
        spec_digits_val(s, from, l1) <= spec_digits_val(s, from, l2),
    decreases l2,
{
    if l1 < l2 {
        lemma_digits_val_monotone(s, from, l1, (l2 - 1) as nat);
    }
}

fn is_digit(c: char) -> (r: bool)
    ensures
        r == spec_is_digit(c),
{
    c == '0' || c == '1' || c == '2' || c == '3' || c == '4' || c == '5' || c == '6' || c == '7'
        || c == '8' || c == '9'
}

fn digit_val(c: char) -> (r: usize)
    requires
        spec_is_digit(c),
    ensures
        r == spec_digit_val(c),
{
    if c == '0' {
        0
    } else if c == '1' {
        1
    } else if c == '2' {
        2
    } else if c == '3' {
        3
    } else if c == '4' {
        4
    } else if c == '5' {
        5
    } else if c == '6' {
        6
    } else if c == '7' {
        7
    } else if c == '8' {
        8
    } else {
        9
    }
}

/// The length of the digit run of `s` starting at `from`.
fn digit_run(s: &str, from: usize) -> (r: usize)
    requires
        from <= s@.len(),
    ensures
        r == spec_digit_run(s@, from as nat),
        from + r <= s@.len(),
{
    let n = s.unicode_len();
    let mut idx = from;
    while idx < n && is_digit(s.get_char(idx))
        invariant
            from <= idx <= n,
            n == s@.len(),
            forall|k: int| from <= k < idx ==> spec_is_digit(s@[k]),
        decreases n - idx,
    {
        idx += 1;
    }
    proof {
        lemma_digit_run_value(s@, from as nat, idx as nat);
    }
    idx - from
}

/// The value of the digit run `[from, from + len)` of `s`, or none when it
/// exceeds `usize`.
fn digits_value(s: &str, from: usize, len: usize) -> (r: Option<usize>)
    requires
        from + len <= s@.len(),
        from + len <= usize::MAX,
        forall|k: int| from <= k < from + len ==> spec_is_digit(s@[k]),
    ensures
        match r {
            Some(v) => v == spec_digits_val(s@, from as nat, len as nat),
            None => spec_digits_val(s@, from as nat, len as nat) > usize::MAX,
        },
{
    let mut acc: usize = 0;
    let mut i: usize = 0;
    while i < len
        invariant
            i <= len,
            from + len <= s@.len(),
            from + len <= usize::MAX,
            forall|k: int| from <= k < from + len ==> spec_is_digit(s@[k]),
            acc == spec_digits_val(s@, from as nat, i as nat),
        decreases len - i,
    {
        let c = s.get_char(from + i);
        let d = digit_val(c);
        let shifted = match acc.checked_mul(10) {
            Some(v) => v,
            None => {
                proof {
                    lemma_digits_val_monotone(s@, from as nat, (i + 1) as nat, len as nat);
                }
                return None;
            },
        };
        acc = match shifted.checked_add(d) {
            Some(v) => v,
            None => {
                proof {
                    lemma_digits_val_monotone(s@, from as nat, (i + 1) as nat, len as nat);
                }
                return None;
            },
        };
        i += 1;
    }
    Some(acc)
}

/// Reads the leading `<width>x<height>` resolution of a file name such as
/// `1920x1080.raw`: at least two digits, an `x`, at least two digits.
pub fn get_res_from_file_path(file_path: &str) -> (r: Result<(usize, usize), NameError>)
    ensures
        match r {
            Ok(wh) => {
                &&& spec_res_shape(file_path@)
                &&& wh.0 == spec_res_width(file_path@)
                &&& wh.1 == spec_res_height(file_path@)
            },
            Err(e) => {
                &&& (e == NameError::NoResolution || e == NameError::ResolutionOverflow)
                &&& (e == NameError::NoResolution <==> !spec_res_shape(file_path@))
                &&& e == NameError::ResolutionOverflow ==> (spec_res_width(file_path@)
                    > usize::MAX || spec_res_height(file_path@) > usize::MAX)
            },
        },
{
    let n = file_path.unicode_len();
    let i = digit_run(file_path, 0);
    if i < 2 || i >= n {
        return Err(NameError::NoResolution);
    }
    if file_path.get_char(i) != 'x' {
        return Err(NameError::NoResolution);
    }
    let m = digit_run(file_path, i + 1);
    if m < 2 {
        return Err(NameError::NoResolution);
    }
    proof {
        lemma_digit_run_digits(file_path@, 0);
        lemma_digit_run_digits(file_path@, (i + 1) as nat);
    }
    let width = match digits_value(file_path, 0, i) {
        Some(v) => v,
        None => {
            return Err(NameError::ResolutionOverflow);
        },
    };
    let height = match digits_value(file_path, i + 1, m) {
        Some(v) => v,
        None => {
            return Err(NameError::ResolutionOverflow);
        },
    };
    Ok((width, height))
}

/// The extension of a bare file name: the characters after its last `.`.
/// A name whose only `.` is its first character (or which has none) has no
/// extension.
pub fn get_extension(file_name: &str) -> (r: Result<String, NameError>)
    ensures
        match r {
            Ok(ext) => {
                &&& spec_has_extension(file_name@)
                &&& ext@ == spec_extension(file_name@)
            },
            Err(e) => {
                &&& e == NameError::NoExtension
                &&& !spec_has_extension(file_name@)
            },
        },
{
    let n = file_name.unicode_len();
    let mut idx = n;
    while idx > 0
        invariant
            idx <= n,
            n == file_name@.len(),
            forall|k: int| idx <= k < n ==> file_name@[k] != '.',
        decreases idx,
    {
        idx -= 1;
        if file_name.get_char(idx) == '.' {
            proof {
                lemma_last_dot_at(file_name@, idx as int);
            }
            if idx == 0 {
                return Err(NameError::NoExtension);
            }
            let ext = file_name.substring_char(idx + 1, n);
            return Ok(ext.to_owned());
        }
    }
    proof {
        lemma_last_dot_none(file_name@);
    }
    Err(NameError::NoExtension)
}

/// One benchmark input file: its directory, bare file name, extension, and
/// the resolution its name encodes.
#[derive(Debug, Clone, PartialEq)]
pub struct TestFile {
    pub dir: String,
    pub name: String,
    pub extension: String,
    pub width: usize,
    pub height: usize,
}

impl TestFile {
    /// Builds the entry for one file of a directory: the name must carry an
    /// extension and lead with a `<width>x<height>` resolution.
    pub fn new(dir: String, name: String) -> (r: Result<TestFile, NameError>)
        ensures
            match r {
                Ok(tf) => {
                    &&& spec_has_extension(name@)
                    &&& spec_res_shape(name@)
                    &&& tf.dir@ == dir@
                    &&& tf.name@ == name@
                    &&& tf.extension@ == spec_extension(name@)
                    &&& tf.width == spec_res_width(name@)
                    &&& tf.height == spec_res_height(name@)
                },
                Err(NameError::NoExtension) => !spec_has_extension(name@),
                Err(NameError::NoResolution) => {
                    &&& spec_has_extension(name@)
                    &&& !spec_res_shape(name@)
                },
                Err(NameError::ResolutionOverflow) => {
                    &&& spec_has_extension(name@)
                    &&& spec_res_shape(name@)
                    &&& (spec_res_width(name@) > usize::MAX || spec_res_height(name@)
                        > usize::MAX)
                },
            },
    {
        let extension = match get_extension(name.as_str()) {
            Ok(e) => e,
            Err(e) => {
                return Err(e);
            },
        };
        let (width, height) = match get_res_from_file_path(name.as_str()) {
            Ok(wh) => wh,
            Err(e) => {
                return Err(e);
            },
        };
        Ok(TestFile { dir, name, extension, width, height })
    }

    /// The full path of the file: `<dir>/<name>`.
    pub fn path(&self) -> (r: String)
        ensures
            r@ == self.dir@ + "/"@ + self.name@,
    {
        let mut s = self.dir.clone();
        s.append("/");
        s.append(self.name.as_str());
        s
    }
}

} // verus!
