//! The debug command line's little grammar.
//!
//! A command is written `/name body`: somewhere in the entered text, a
//! slash immediately followed by at least one lowercase letter.  The name
//! is the longest run of lowercase letters after that first slash; the body
//! is everything after the whitespace that follows the name.  Text before
//! the first such slash is ignored, and text with no such slash is not a
//! command.

use vstd::prelude::*;

use vstd::string::StrSliceExecFns;

verus! {

/// A lowercase ASCII letter, `a` through `z`.
pub open spec fn is_lower(c: char) -> bool {
    ('a' as u32) <= (c as u32) <= ('z' as u32)
}

/// A whitespace character: the ASCII whitespace controls and space, and
/// the other Unicode whitespace code points.
pub open spec fn is_space(c: char) -> bool {
    ||| (0x9 <= (c as u32) <= 0xD)
    ||| (c as u32) == 0x20
    ||| (c as u32) == 0x85
    ||| (c as u32) == 0xA0
    ||| (c as u32) == 0x1680
    ||| (0x2000 <= (c as u32) <= 0x200A)
    ||| (c as u32) == 0x2028
    ||| (c as u32) == 0x2029
    ||| (c as u32) == 0x202F
    ||| (c as u32) == 0x205F
    ||| (c as u32) == 0x3000
}

/// A command starts at `i`: a slash with a lowercase letter right after it.
pub open spec fn cmd_start_at(s: Seq<char>, i: int) -> bool {
    &&& 0 <= i
    &&& i + 1 < s.len()
    &&& s[i] == '/'
    &&& is_lower(s[i + 1])
}

/// The positions a successful parse is made of: the earliest command start
/// `i`, the end `j` of the longest lowercase run after the slash, and the
/// end `k` of the longest whitespace run after that.
pub open spec fn parse_witness(s: Seq<char>, i: int, j: int, k: int) -> bool {
    &&& cmd_start_at(s, i)
    &&& forall|i2: int| 0 <= i2 < i ==> !cmd_start_at(s, i2)
    &&& i + 1 < j <= s.len()
    &&& forall|t: int| i + 1 <= t < j ==> is_lower(s[t])
    &&& (j == s.len() || !is_lower(s[j]))
    &&& j <= k <= s.len()
    &&& forall|t: int| j <= t < k ==> is_space(s[t])
    &&& (k == s.len() || !is_space(s[k]))
}

/// Whether `c` is a lowercase ASCII letter.
fn is_lower_exec(c: char) -> (r: bool)
    ensures
        r == is_lower(c),
{
    let u = c as u32;
    97 <= u && u <= 122
}

/// Whether `c` is whitespace.
fn is_space_exec(c: char) -> (r: bool)
    ensures
        r == is_space(c),
{
    let u = c as u32;
    (9 <= u && u <= 13) || u == 0x20 || u == 0x85 || u == 0xA0 || u == 0x1680 || (0x2000 <= u && u
        <= 0x200A) || u == 0x2028 || u == 0x2029 || u == 0x202F || u == 0x205F || u == 0x3000
}

/// Split an entered command into its name and its body: for `/goto (1, 2)`,
/// the name `goto` and the body `(1, 2)`.  Returns `None` when the text
/// holds no slash followed by a lowercase letter.
pub fn parse<'a>(command: &'a str) -> (r: Option<(&'a str, &'a str)>)
    ensures
        match r {
            None => forall|i: int| !cmd_start_at(command@, i),
            Some((name, rest)) => exists|i: int, j: int, k: int|
                {
                    &&& #[trigger] parse_witness(command@, i, j, k)
                    &&& name@ == command@.subrange(i + 1, j)
                    &&& rest@ == command@.subrange(k, command@.len() as int)
                },
        },
{
    let n = command.unicode_len();

    // The earliest command start.
    let mut i: usize = 0;
    let mut found: bool = false;
    while i < n && !found
        invariant
            n == command@.len(),
            0 <= i <= n,
            forall|i2: int| 0 <= i2 < i ==> !cmd_start_at(command@, i2),
            found ==> i < n && cmd_start_at(command@, i as int),
        decreases n - i + (if found {
            0int
        } else {
            1int
        }),
    {
        if i + 1 < n {
            let c0 = command.get_char(i);
            let c1 = command.get_char(i + 1);
            if c0 == '/' && is_lower_exec(c1) {
                found = true;
            } else {
                i += 1;
            }
        } else {
            i += 1;
        }
    }
    if !found {
        return None;
    }

    // The longest lowercase run after the slash.
    let mut j: usize = i + 2;
    while j < n && is_lower_exec(command.get_char(j))
        invariant
            n == command@.len(),
            cmd_start_at(command@, i as int),
            i + 2 <= j <= n,
            forall|t: int| i + 1 <= t < j ==> is_lower(command@[t]),
        decreases n - j,
    {
        j += 1;
    }

    // The longest whitespace run after the name.
    let mut k: usize = j;
    while k < n && is_space_exec(command.get_char(k))
        invariant
            n == command@.len(),
            j <= k <= n,
            forall|t: int| j <= t < k ==> is_space(command@[t]),
        decreases n - k,
    {
        k += 1;
    }

    let name = command.substring_char(i + 1, j);
    let rest = command.substring_char(k, n);
    proof {
        assert(parse_witness(command@, i as int, j as int, k as int));
    }
    Some((name, rest))
}

} // verus!
