//! Parsing the output of the host's `php-config` tool.
//!
//! Locating and running the tool is the embedder's job; what its output
//! means is settled here.  The `--includes` listing is a space-separated
//! sequence of compiler flags, each naming an include directory behind
//! one or more `-I` prefixes.

use vstd::prelude::*;

verus! {

/// The space byte that separates flags in the tool's output.
pub const FLAG_SEPARATOR: u8 = 32;

/// Splitting a byte sequence at every separator byte: one piece per
/// separator-free run, an empty sequence yielding one empty piece, just
/// as the embedder's string splitting does.
pub open spec fn split_on_separator(s: Seq<u8>) -> Seq<Seq<u8>>
    decreases s.len(),
{
    if s.len() == 0 {
        seq![Seq::<u8>::empty()]
    } else if s[0] == FLAG_SEPARATOR {
        seq![Seq::<u8>::empty()] + split_on_separator(s.skip(1))
    } else {
        let rest = split_on_separator(s.skip(1));
        seq![seq![s[0]] + rest[0]] + rest.skip(1)
    }
}

/// A split always yields at least one piece.
pub proof fn lemma_split_nonempty(s: Seq<u8>)
    ensures
        split_on_separator(s).len() >= 1,
    decreases s.len(),
{
    if s.len() == 0 {
    } else {
        lemma_split_nonempty(s.skip(1));
    }
}

/// Removing every leading `-I` prefix from one flag, leaving the bare
/// include path.
pub open spec fn strip_include_prefix(p: Seq<u8>) -> Seq<u8>
    decreases p.len(),
{
    if p.len() >= 2 && p[0] == 45u8 && p[1] == 73u8 {
        strip_include_prefix(p.skip(2))
    } else {
        p
    }
}

/// The byte views of a sequence of byte vectors.
pub open spec fn views_of(pieces: Seq<Vec<u8>>) -> Seq<Seq<u8>> {
    pieces.map_values(|p: Vec<u8>| p@)
}

/// What the `--includes` listing names: every space-separated flag, with
/// its leading `-I` prefixes removed.
pub open spec fn include_paths(out: Seq<u8>) -> Seq<Seq<u8>> {
    split_on_separator(out).map_values(|p: Seq<u8>| strip_include_prefix(p))
}

/// Parses the `--includes` output of the tool into the include paths it
/// names, in order.
pub fn parse_include_flags(out: &[u8]) -> (r: Vec<Vec<u8>>)
    ensures
        views_of(r@) == include_paths(out@),
{
    let pieces = split_pieces(out, 0);
    proof {
        assert(out@.skip(0) == out@);
    }
    let mut result: Vec<Vec<u8>> = Vec::new();
    let mut i: usize = 0;
    let n = pieces.len();
    while i < n
        invariant
            0 <= i <= n,
            n == pieces@.len(),
            views_of(pieces@) == split_on_separator(out@),
            views_of(result@) == include_paths(out@).take(i as int),
        decreases n - i,
    {
        let stripped = strip_flag(&pieces[i]);
        proof {
            assert(views_of(pieces@)[i as int] == pieces@[i as int]@);
            assert(include_paths(out@)[i as int] == strip_include_prefix(
                split_on_separator(out@)[i as int],
            ));
        }
        let ghost pre = result@;
        result.push(stripped);
        proof {
            assert(views_of(pre).len() == pre.len());
            assert(views_of(pieces@).len() == pieces@.len());
            assert(include_paths(out@).len() == split_on_separator(out@).len());
            assert(pre.len() == i as int);
            assert(result@ == pre.push(stripped));
            assert(result@.len() == i as int + 1);
            assert forall|j: int| 0 <= j < i as int + 1 implies views_of(result@)[j]
                == include_paths(out@).take(i as int + 1)[j] by {
                assert(views_of(result@)[j] == result@[j]@);
                if j < i as int {
                    assert(result@[j] == pre[j]);
                    assert(views_of(pre)[j] == pre[j]@);
                }
            }
            assert(views_of(result@) =~= include_paths(out@).take(i as int + 1));
        }
        i += 1;
    }
    proof {
        assert(include_paths(out@).take(n as int) == include_paths(out@));
        assert(views_of(result@) == include_paths(out@));
    }
    result
}

/// The preprocessor defines a host build needs: a thread-aware host asks
/// for the `ZTS` symbol, set to `1`; any other build asks for nothing.
pub fn get_defines(thread_safety: bool) -> (r: Vec<(Vec<u8>, Vec<u8>)>)
    ensures
        thread_safety ==> r@.len() == 1 && r@[0].0@ == seq![90u8, 84u8, 83u8] && r@[0].1@
            == seq![49u8],
        !thread_safety ==> r@.len() == 0,
{
    let mut defines: Vec<(Vec<u8>, Vec<u8>)> = Vec::new();
    if thread_safety {
        let mut name: Vec<u8> = Vec::new();
        name.push(90u8);
        name.push(84u8);
        name.push(83u8);
        let mut value: Vec<u8> = Vec::new();
        value.push(49u8);
        defines.push((name, value));
        proof {
            assert(defines@[0].0@ =~= seq![90u8, 84u8, 83u8]);
            assert(defines@[0].1@ =~= seq![49u8]);
        }
    }
    defines
}

/// Splits `s`, from position `from` on, at every separator byte.
fn split_pieces(s: &[u8], from: usize) -> (r: Vec<Vec<u8>>)
    requires
        from <= s@.len(),
    ensures
        views_of(r@) == split_on_separator(s@.skip(from as int)),
    decreases s@.len() - from,
{
    if from == s.len() {
        let mut r: Vec<Vec<u8>> = Vec::new();
        r.push(Vec::new());
        proof {
            assert(s@.skip(from as int).len() == 0);
            assert(views_of(r@) =~= seq![Seq::<u8>::empty()]);
        }
        r
    } else if s[from] == FLAG_SEPARATOR {
        let mut r = split_pieces(s, from + 1);
        r.insert(0, Vec::new());
        proof {
            assert(s@.skip(from as int)[0] == FLAG_SEPARATOR);
            assert(s@.skip(from as int).skip(1) == s@.skip(from as int + 1));
            assert(views_of(r@) =~= seq![Seq::<u8>::empty()] + split_on_separator(
                s@.skip(from as int + 1),
            ));
        }
        r
    } else {
        let mut r = split_pieces(s, from + 1);
        proof {
            lemma_split_nonempty(s@.skip(from as int + 1));
        }
        let mut head = r.remove(0);
        head.insert(0, s[from]);
        r.insert(0, head);
        proof {
            let tail = s@.skip(from as int + 1);
            let whole = s@.skip(from as int);
            assert(whole[0] == s@[from as int]);
            assert(whole.skip(1) == tail);
            assert(whole[0] != FLAG_SEPARATOR);
            assert(views_of(r@) =~~= seq![seq![whole[0]] + split_on_separator(tail)[0]]
                + split_on_separator(tail).skip(1));
        }
        r
    }
}

/// Removes every leading `-I` prefix of one flag.
fn strip_flag(p: &Vec<u8>) -> (r: Vec<u8>)
    ensures
        r@ == strip_include_prefix(p@),
{
    let mut k: usize = 0;
    let n = p.len();
    proof {
        assert(p@.skip(0) == p@);
    }
    while k < n && k + 1 < n && p[k] == 45u8 && p[k + 1] == 73u8
        invariant
            0 <= k <= n,
            n == p@.len(),
            strip_include_prefix(p@) == strip_include_prefix(p@.skip(k as int)),
        decreases n - k,
    {
        proof {
            assert(p@.skip(k as int)[0] == 45u8);
            assert(p@.skip(k as int)[1] == 73u8);
            assert(p@.skip(k as int).skip(2) == p@.skip(k as int + 2));
        }
        k += 2;
    }
    proof {
        assert(strip_include_prefix(p@.skip(k as int)) == p@.skip(k as int));
    }
    let mut out: Vec<u8> = Vec::new();
    let mut i: usize = k;
    while i < n
        invariant
            k <= i <= n,
            n == p@.len(),
            out@ == p@.subrange(k as int, i as int),
        decreases n - i,
    {
        out.push(p[i]);
        i += 1;
    }
    proof {
        assert(out@ == p@.skip(k as int));
    }
    out
}

} // verus!
