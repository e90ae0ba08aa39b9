//! The `.env.local` file read at start-up: which lines set a variable, the
//! key and value each gives, and which lines are refused. Reading the file
//! and setting the variables happen in the application.

use vstd::prelude::*;
use crate::text;

verus! {

/// Whether `key` can name an environment variable: a letter or underscore,
/// then letters, digits and underscores.
pub open spec fn is_key(key: Seq<char>) -> bool {
    &&& key.len() > 0
    &&& (key[0] == '_' || text::is_ascii_alpha(key[0]))
    &&& forall|i: int| 1 <= i < key.len() ==> (#[trigger] key[i] == '_' || text::is_ascii_alnum(key[i]))
}

pub fn is_env_key(key: &str) -> (b: bool)
    ensures
        b == is_key(key@),
{
    let chars = text::chars_of(key);
    if chars.len() == 0 {
        return false;
    }
    if !(chars[0] == '_' || text::ascii_alpha(chars[0])) {
        return false;
    }
    let mut i: usize = 1;
    while i < chars.len()
        invariant
            1 <= i <= chars.len(),
            chars@ == key@,
            forall|j: int| 1 <= j < i ==> (#[trigger] chars@[j] == '_' || text::is_ascii_alnum(chars@[j])),
        decreases chars.len() - i,
    {
        if !(chars[i] == '_' || text::ascii_alnum(chars[i])) {
            return false;
        }
        i += 1;
    }
    true
}

/// A value without one pair of matching double or single quotes around it.
pub open spec fn unquoted(value: Seq<char>) -> Seq<char> {
    if value.len() >= 2 && ((value[0] == '"' && value.last() == '"') || (value[0] == '\''
        && value.last() == '\'')) {
        value.subrange(1, value.len() - 1)
    } else {
        value
    }
}

pub fn parse_env_value(value: &str) -> (r: String)
    ensures
        r@ == unquoted(value@),
{
    let chars = text::chars_of(value);
    let n = chars.len();
    if n >= 2 && ((chars[0] == '"' && chars[n - 1] == '"') || (chars[0] == '\'' && chars[n - 1]
        == '\'')) {
        let mut inner: Vec<char> = Vec::new();
        let mut i: usize = 1;
        while i < n - 1
            invariant
                1 <= i <= n - 1,
                n == chars@.len(),
                n >= 2,
                inner@ == chars@.subrange(1, i as int),
            decreases n - 1 - i,
        {
            inner.push(chars[i]);
            i += 1;
            proof {
                assert(inner@ =~= chars@.subrange(1, i as int));
            }
        }
        text::string_of(&inner)
    } else {
        text::owned(value)
    }
}

/// What a line of `.env.local` means: nothing for a blank line or a
/// comment; else, after an optional `export ` prefix, a key and a value
/// split at the first `=`, the key trimmed and the value trimmed and
/// unquoted; or why the line is refused.
pub enum EnvLine {
    Skip,
    Assign { key: String, value: String },
}

pub enum EnvLineError {
    /// The line has no `=`.
    NoEquals,
    /// The key is not a variable name.
    BadKey,
}

pub open spec fn strip_export(line: Seq<char>) -> Seq<char> {
    if line.len() >= 7 && line.take(7) == "export "@ {
        line.skip(7)
    } else {
        line
    }
}

/// The position of the first `=`, if any.
pub open spec fn first_equals(s: Seq<char>) -> Option<int>
    decreases s.len(),
{
    if s.len() == 0 {
        None
    } else if s[0] == '=' {
        Some(0)
    } else {
        match first_equals(s.drop_first()) {
            Some(i) => Some(i + 1),
            None => None,
        }
    }
}

pub open spec fn spec_env_line(raw: Seq<char>) -> Result<Option<(Seq<char>, Seq<char>)>, EnvLineError> {
    let line = text::trim_seq(raw);
    if line.len() == 0 || line[0] == '#' {
        Ok(None)
    } else {
        let body = text::trim_start_seq(strip_export(line));
        match first_equals(body) {
            None => Err(EnvLineError::NoEquals),
            Some(k) => {
                let key = text::trim_seq(body.take(k));
                if !is_key(key) {
                    Err(EnvLineError::BadKey)
                } else {
                    Ok(Some((key, unquoted(text::trim_seq(body.skip(k + 1))))))
                }
            },
        }
    }
}

proof fn lemma_first_equals(s: Seq<char>, i: int)
    requires
        0 <= i < s.len(),
        s[i] == '=',
        forall|j: int| 0 <= j < i ==> s[j] != '=',
    ensures
        first_equals(s) == Some(i),
    decreases s.len(),
{
    if i > 0 {
        lemma_first_equals(s.drop_first(), i - 1);
    }
}

proof fn lemma_no_equals(s: Seq<char>)
    requires
        forall|j: int| 0 <= j < s.len() ==> s[j] != '=',
    ensures
        first_equals(s) is None,
    decreases s.len(),
{
    if s.len() > 0 {
        lemma_no_equals(s.drop_first());
    }
}

fn trim_start_chars(s: &Vec<char>) -> (out: Vec<char>)
    ensures
        out@ == text::trim_start_seq(s@),
{
    let mut i: usize = 0;
    proof {
        assert(s@.skip(0) == s@);
    }
    while i < s.len() && text::unicode_whitespace(s[i])
        invariant
            i <= s.len(),
            text::trim_start_seq(s@) == text::trim_start_seq(s@.skip(i as int)),
        decreases s.len() - i,
    {
        proof {
            assert(s@.skip(i as int).drop_first() =~= s@.skip(i + 1));
        }
        i += 1;
    }
    let out = slice_chars(s, i, s.len());
    proof {
        assert(out@ =~= s@.skip(i as int));
    }
    out
}

fn slice_chars(s: &Vec<char>, from: usize, to: usize) -> (out: Vec<char>)
    requires
        from <= to <= s.len(),
    ensures
        out@ == s@.subrange(from as int, to as int),
{
    let mut out: Vec<char> = Vec::new();
    let mut k: usize = from;
    while k < to
        invariant
            from <= k <= to <= s.len(),
            out@ == s@.subrange(from as int, k as int),
        decreases to - k,
    {
        out.push(s[k]);
        k += 1;
        proof {
            assert(out@ =~= s@.subrange(from as int, k as int));
        }
    }
    out
}

/// Reads one line of `.env.local`.
pub fn parse_env_line(raw: &str) -> (r: Result<EnvLine, EnvLineError>)
    ensures
        match spec_env_line(raw@) {
            Ok(None) => r matches Ok(EnvLine::Skip),
            Ok(Some(kv)) => r matches Ok(EnvLine::Assign { key, value }) && key@ == kv.0 && value@
                == kv.1,
            Err(EnvLineError::NoEquals) => r matches Err(EnvLineError::NoEquals),
            Err(EnvLineError::BadKey) => r matches Err(EnvLineError::BadKey),
        },
{
    let chars = text::chars_of(raw);
    let line = text::trim_chars(&chars);
    if line.len() == 0 || line[0] == '#' {
        return Ok(EnvLine::Skip);
    }
    let export = text::chars_of("export ");
    proof {
        reveal_strlit("export ");
    }
    let mut is_export = line.len() >= 7;
    let mut j: usize = 0;
    while is_export && j < 7
        invariant
            j <= 7,
            export@ == "export "@,
            export@.len() == 7,
            is_export ==> line@.len() >= 7,
            is_export ==> forall|m: int| 0 <= m < j ==> line@[m] == export@[m],
            !is_export ==> !(line@.len() >= 7 && line@.take(7) == "export "@),
        decreases 7 - j,
    {
        if line[j] != export[j] {
            is_export = false;
            proof {
                assert(line@.take(7)[j as int] != "export "@[j as int]);
            }
        }
        j += 1;
    }
    let rest = if is_export {
        proof {
            assert(line@.take(7) =~= "export "@);
        }
        slice_chars(&line, 7, line.len())
    } else {
        slice_chars(&line, 0, line.len())
    };
    proof {
        assert(rest@ =~= strip_export(line@));
    }
    let body = trim_start_chars(&rest);
    let mut k: usize = 0;
    while k < body.len() && body[k] != '='
        invariant
            k <= body.len(),
            forall|m: int| 0 <= m < k ==> body@[m] != '=',
        decreases body.len() - k,
    {
        k += 1;
    }
    if k == body.len() {
        proof {
            lemma_no_equals(body@);
        }
        return Err(EnvLineError::NoEquals);
    }
    proof {
        lemma_first_equals(body@, k as int);
    }
    let key_part = slice_chars(&body, 0, k);
    let key_chars = text::trim_chars(&key_part);
    let key = text::string_of(&key_chars);
    proof {
        assert(key_part@ =~= body@.take(k as int));
    }
    if !is_env_key(key.as_str()) {
        return Err(EnvLineError::BadKey);
    }
    let value_part = slice_chars(&body, k + 1, body.len());
    proof {
        assert(value_part@ =~= body@.skip(k + 1));
    }
    let value_chars = text::trim_chars(&value_part);
    let value_text = text::string_of(&value_chars);
    let value = parse_env_value(value_text.as_str());
    Ok(EnvLine::Assign { key, value })
}

/// The error for a refused line, numbered from one.
pub fn env_line_error_message(e: &EnvLineError, line_number: u64) -> (s: String)
    ensures
        s@ == match e {
            EnvLineError::NoEquals => "invalid .env.local line "@,
            EnvLineError::BadKey => "invalid .env.local key on line "@,
        } + text::nat_decimal(line_number as nat),
{
    let mut s = match e {
        EnvLineError::NoEquals => text::owned("invalid .env.local line "),
        EnvLineError::BadKey => text::owned("invalid .env.local key on line "),
    };
    text::push_u64(&mut s, line_number);
    s
}

} // verus!
