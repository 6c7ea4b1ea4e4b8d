//! Naming policy for saved files.
//!
//! The policy is deterministic (content-derived, never clock-derived), so
//! repeated activations on identical clipboard content always produce the
//! same file name and the later write overwrites the earlier one:
//! - an image is named by a fixed tag plus the hex FNV-1a digest of its raw
//!   pixel bytes;
//! - text is named by a fixed tier tag plus a sanitized prefix of the text
//!   itself: its ASCII alphanumeric, space and underscore characters, in
//!   order, truncated to twelve.

use crate::hashing::push_char;
use vstd::prelude::*;
use vstd::string::StrSliceExecFns;
use vstd::string::StringExecFns;

verus! {

/// The number of sanitized characters a file-name stem keeps.
pub const STEM_LEN: usize = 12;

/// Whether a character survives sanitization: ASCII alphanumeric, space or
/// underscore.
pub open spec fn keep_char(c: char) -> bool {
    ('a' as u32 <= c as u32 && c as u32 <= 'z' as u32) || ('A' as u32 <= c as u32 && c as u32
        <= 'Z' as u32) || ('0' as u32 <= c as u32 && c as u32 <= '9' as u32) || c == ' ' || c == '_'
}

/// The characters of `s` that survive sanitization, in order, at most
/// `budget` of them.
pub open spec fn sanitized(s: Seq<char>, budget: nat) -> Seq<char>
    decreases s.len(),
{
    if s.len() == 0 || budget == 0 {
        Seq::<char>::empty()
    } else if keep_char(s[0]) {
        seq![s[0]] + sanitized(s.drop_first(), (budget - 1) as nat)
    } else {
        sanitized(s.drop_first(), budget)
    }
}

/// The file-name stem derived from a text payload: its sanitized characters,
/// truncated to the fixed stem length.
pub open spec fn name_stem(text: Seq<char>) -> Seq<char> {
    sanitized(text, STEM_LEN as nat)
}

/// Whether a character survives sanitization, as executable code.
fn keep_char_exec(c: char) -> (r: bool)
    ensures
        r == keep_char(c),
{
    let n: u32 = c as u32;
    ('a' as u32 <= n && n <= 'z' as u32) || ('A' as u32 <= n && n <= 'Z' as u32) || ('0' as u32 <= n
        && n <= '9' as u32) || c == ' ' || c == '_'
}

/// Extracts the sanitized stem of `text`: its ASCII alphanumeric, space and
/// underscore characters, in order, at most `STEM_LEN` of them.
pub fn sanitized_prefix(text: &str) -> (out: String)
    ensures
        out@ == name_stem(text@),
{
    let n: usize = text.unicode_len();
    let mut out = String::new();
    let mut count: usize = 0;
    let mut i: usize = 0;
    proof {
        assert(text@.skip(0) =~= text@);
        assert(out@ + sanitized(text@, STEM_LEN as nat) =~= sanitized(text@, STEM_LEN as nat));
    }
    while i < n && count < STEM_LEN
        invariant
            n == text@.len(),
            i <= n,
            count == out@.len(),
            count <= STEM_LEN,
            out@ + sanitized(text@.skip(i as int), (STEM_LEN - count) as nat) == name_stem(text@),
        decreases n - i,
    {
        let ghost rest = text@.skip(i as int);
        let ghost budget = (STEM_LEN - count) as nat;
        let c = text.get_char(i);
        proof {
            assert(rest.len() > 0);
            assert(rest[0] == c);
            assert(rest.drop_first() =~= text@.skip(i + 1));
        }
        if keep_char_exec(c) {
            push_char(&mut out, c);
            count = count + 1;
            proof {
                assert(sanitized(rest, budget) == seq![c] + sanitized(
                    text@.skip(i + 1),
                    (budget - 1) as nat,
                ));
                assert(out@ + sanitized(text@.skip(i + 1), (STEM_LEN - count) as nat) =~= name_stem(
                    text@,
                ));
            }
        } else {
            proof {
                assert(sanitized(rest, budget) == sanitized(text@.skip(i + 1), budget));
            }
        }
        i = i + 1;
    }
    proof {
        if i == n {
            assert(text@.skip(i as int) =~= Seq::<char>::empty());
            assert(sanitized(text@.skip(i as int), (STEM_LEN - count) as nat)
                == Seq::<char>::empty());
        } else {
            assert(sanitized(text@.skip(i as int), (STEM_LEN - count) as nat)
                == Seq::<char>::empty());
        }
        assert(out@ =~= name_stem(text@));
    }
    out
}

/// Concatenates a tag, a stem and an extension into one file name.
pub fn tagged_name(tag: &str, stem: &str, ext: &str) -> (s: String)
    ensures
        s@ == tag@ + stem@ + ext@,
{
    let mut s = String::from_str(tag);
    s.append(stem);
    s.append(ext);
    proof {
        assert(s@ =~= tag@ + stem@ + ext@);
    }
    s
}

} // verus!
