//! Path normalization and image file names.
//!
//! Paths are normalized to a single canonical form: every backslash becomes
//! a slash, then doubled slashes are collapsed in one left-to-right pass
//! over non-overlapping pairs. Image files are named by the page index,
//! zero-padded to three digits, with the `.jpg` extension.

use vstd::prelude::*;

use crate::num::dec_str_of;
use crate::num::usize_to_dec_string;
use crate::strutil::push_char;

verus! {

/// A backslash becomes a slash; any other character stays.
pub open spec fn slashed(c: char) -> char {
    if c == '\\' {
        '/'
    } else {
        c
    }
}

/// One left-to-right pass that replaces each non-overlapping pair of
/// slashes by a single slash.
pub open spec fn collapse_double_slash(s: Seq<char>) -> Seq<char>
    decreases s.len(),
{
    if s.len() >= 2 && s[0] == '/' && s[1] == '/' {
        seq!['/'] + collapse_double_slash(s.skip(2))
    } else if s.len() >= 1 {
        seq![s[0]] + collapse_double_slash(s.skip(1))
    } else {
        Seq::empty()
    }
}

/// The canonical form of a path: backslashes mapped to slashes, then
/// doubled slashes collapsed.
pub open spec fn normalize_spec(s: Seq<char>) -> Seq<char> {
    collapse_double_slash(s.map_values(|c: char| slashed(c)))
}

/// Rewrites a path to the canonical separator form, as `normalize_spec`
/// says.
pub fn normalize_paths(path: &str) -> (r: String)
    ensures
        r@ == normalize_spec(path@),
{
    let ghost m = path@.map_values(|c: char| slashed(c));
    let n = path.unicode_len();
    let mut out = String::new();
    let mut i: usize = 0;
    proof {
        assert(m.skip(0) =~= m);
        assert(out@ + collapse_double_slash(m) =~= collapse_double_slash(m));
    }
    while i < n
        invariant
            0 <= i <= n,
            n == path@.len(),
            m == path@.map_values(|c: char| slashed(c)),
            out@ + collapse_double_slash(m.skip(i as int)) == collapse_double_slash(m),
        decreases n - i,
    {
        let c0 = path.get_char(i);
        let c = if c0 == '\\' {
            '/'
        } else {
            c0
        };
        proof {
            assert(m[i as int] == slashed(path@[i as int]));
            assert(c == m[i as int]);
        }
        if c == '/' && i + 1 < n {
            let c1 = path.get_char(i + 1);
            let cn = if c1 == '\\' {
                '/'
            } else {
                c1
            };
            proof {
                assert(m[i + 1] == slashed(path@[i + 1]));
                assert(cn == m[i + 1]);
            }
            if cn == '/' {
                proof {
                    assert(m.skip(i as int)[0] == m[i as int]);
                    assert(m.skip(i as int)[1] == m[i + 1]);
                    assert(m.skip(i as int).skip(2) =~= m.skip(i + 2));
                    assert(collapse_double_slash(m.skip(i as int)) == seq!['/']
                        + collapse_double_slash(m.skip(i + 2)));
                    assert(out@.push('/') + collapse_double_slash(m.skip(i + 2)) =~= out@ + (
                    seq!['/'] + collapse_double_slash(m.skip(i + 2))));
                }
                push_char(&mut out, '/');
                i = i + 2;
                continue;
            }
        }
        proof {
            assert(m.skip(i as int)[0] == m[i as int]);
            assert(m.skip(i as int).len() >= 1);
            assert(!(m.skip(i as int).len() >= 2 && m.skip(i as int)[0] == '/'
                && m.skip(i as int)[1] == '/')) by {
                if m.skip(i as int).len() >= 2 {
                    assert(m.skip(i as int)[1] == m[i + 1]);
                }
            }
            assert(m.skip(i as int).skip(1) =~= m.skip(i + 1));
            assert(collapse_double_slash(m.skip(i as int)) == seq![m[i as int]]
                + collapse_double_slash(m.skip(i + 1)));
            assert(out@.push(c) + collapse_double_slash(m.skip(i + 1)) =~= out@ + (seq![
                m[i as int],
            ] + collapse_double_slash(m.skip(i + 1))));
        }
        push_char(&mut out, c);
        i = i + 1;
    }
    proof {
        assert(m.skip(n as int) =~= Seq::<char>::empty());
        assert(collapse_double_slash(m.skip(n as int)) =~= Seq::<char>::empty());
        assert(out@ + Seq::<char>::empty() =~= out@);
    }
    out
}

/// Holds neither a slash nor a backslash: such text passes through
/// normalization untouched.
pub open spec fn slash_free(t: Seq<char>) -> bool {
    forall|i: int| 0 <= i < t.len() ==> (#[trigger] t[i]) != '/' && t[i] != '\\'
}

/// Slash-free text is already collapsed.
proof fn lemma_collapse_no_slash(t: Seq<char>)
    requires
        slash_free(t),
    ensures
        collapse_double_slash(t) == t,
    decreases t.len(),
{
    if t.len() >= 1 {
        lemma_collapse_no_slash(t.skip(1));
        assert(seq![t[0]] + t.skip(1) =~= t);
    }
}

/// Collapsing never reaches into a slash-free suffix: the suffix comes
/// out verbatim, after whatever the head collapses to.
proof fn lemma_collapse_slash_free_suffix(m: Seq<char>, t: Seq<char>)
    requires
        slash_free(t),
    ensures
        collapse_double_slash(m + t) == collapse_double_slash(m) + t,
    decreases m.len(),
{
    let w = m + t;
    if m.len() == 0 {
        lemma_collapse_no_slash(t);
        assert(w =~= t);
        assert(collapse_double_slash(m) + t =~= t);
    } else if m.len() >= 2 && m[0] == '/' && m[1] == '/' {
        lemma_collapse_slash_free_suffix(m.skip(2), t);
        assert(w.skip(2) =~= m.skip(2) + t);
        assert(seq!['/'] + (collapse_double_slash(m.skip(2)) + t) =~= (seq!['/']
            + collapse_double_slash(m.skip(2))) + t);
    } else {
        if w.len() >= 2 && w[0] == '/' && w[1] == '/' {
            assert(m.len() == 1 ==> w[1] == t[0]);
            assert(false);
        }
        lemma_collapse_slash_free_suffix(m.skip(1), t);
        assert(w.skip(1) =~= m.skip(1) + t);
        assert(seq![m[0]] + (collapse_double_slash(m.skip(1)) + t) =~= (seq![m[0]]
            + collapse_double_slash(m.skip(1))) + t);
        assert(w[0] == m[0]);
    }
}

/// Normalization leaves a slash-free suffix in place: normalizing
/// `s + t` is normalizing `s` and appending `t` verbatim.
pub proof fn lemma_normalize_slash_free_suffix(s: Seq<char>, t: Seq<char>)
    requires
        slash_free(t),
    ensures
        normalize_spec(s + t) == normalize_spec(s) + t,
{
    let f = |c: char| slashed(c);
    assert((s + t).map_values(f) =~= s.map_values(f) + t.map_values(f));
    assert(t.map_values(f) =~= t);
    lemma_collapse_slash_free_suffix(s.map_values(f), t);
}

/// The page index, zero-padded on the left to at least three digits.
pub open spec fn zero_pad3(n: nat) -> Seq<char> {
    let d = dec_str_of(n);
    if d.len() >= 3 {
        d
    } else if d.len() == 2 {
        seq!['0'] + d
    } else {
        seq!['0', '0'] + d
    }
}

/// The file name of a page image: the zero-padded index and the `.jpg`
/// extension.
pub open spec fn image_file_name(n: nat) -> Seq<char> {
    zero_pad3(n) + seq!['.', 'j', 'p', 'g']
}

/// Slash-freedom is closed under concatenation.
proof fn lemma_slash_free_concat(a: Seq<char>, b: Seq<char>)
    requires
        slash_free(a),
        slash_free(b),
    ensures
        slash_free(a + b),
{
    assert forall|i: int| 0 <= i < (a + b).len() implies ((#[trigger] (a + b)[i]) != '/' && (a
        + b)[i] != '\\') by {
        if i < a.len() {
            assert((a + b)[i] == a[i]);
        } else {
            assert((a + b)[i] == b[i - a.len()]);
        }
    }
}

/// A digit string holds no path separator.
proof fn lemma_digits_slash_free(d: Seq<char>)
    requires
        crate::num::all_dec_digits(d),
    ensures
        slash_free(d),
{
    assert forall|i: int| 0 <= i < d.len() implies ((#[trigger] d[i]) != '/' && d[i] != '\\') by {
        assert(crate::num::is_dec_digit(d[i]));
    }
}

/// An image file name holds only digits, a dot and letters: no separator.
pub proof fn lemma_image_file_name_slash_free(n: nat)
    ensures
        slash_free(image_file_name(n)),
{
    crate::num::lemma_dec_str_canonical(n);
    let d = dec_str_of(n);
    lemma_digits_slash_free(d);
    let ext = seq!['.', 'j', 'p', 'g'];
    assert(slash_free(ext));
    let z = zero_pad3(n);
    if d.len() >= 3 {
    } else if d.len() == 2 {
        assert(slash_free(seq!['0']));
        lemma_slash_free_concat(seq!['0'], d);
    } else {
        assert(slash_free(seq!['0', '0']));
        lemma_slash_free_concat(seq!['0', '0'], d);
    }
    lemma_slash_free_concat(z, ext);
}

/// Builds the image file name of a page index.
pub fn page_image_name(idx: usize) -> (s: String)
    ensures
        s@ == image_file_name(idx as nat),
{
    let digits = usize_to_dec_string(idx);
    let len = digits.as_str().unicode_len();
    let mut s = String::new();
    if len == 1 {
        push_char(&mut s, '0');
        push_char(&mut s, '0');
    } else if len == 2 {
        push_char(&mut s, '0');
    }
    s.append(digits.as_str());
    push_char(&mut s, '.');
    push_char(&mut s, 'j');
    push_char(&mut s, 'p');
    push_char(&mut s, 'g');
    proof {
        assert(s@ =~= image_file_name(idx as nat));
    }
    s
}

} // verus!
