//! The conversion-boundary search.
//!
//! Given the raw buffer and the externally supplied conversion function,
//! `resolve` finds the longest convertible prefix by probing successively
//! shorter prefixes from the end of the text toward its start, and splits
//! the buffer into a converted prefix and a residual raw suffix.
//!
//! The converter is an ordinary function value; its outcomes are only known
//! relationally, through `call_ensures`.  A caller whose converter is
//! deterministic - the design requires referential transparency of the
//! converter - can pin the split down exactly: `lemma_resolution_from_model`
//! turns the relational contract into the pure `resolution` predicate, and
//! `lemma_resolution_unique` shows that predicate determines the split, so
//! repeated recomputation on every keystroke is stable.

use vstd::prelude::*;
use vstd::string::*;

verus! {

/// View of an optional owned string as an optional character sequence.
pub open spec fn opt_view(r: Option<String>) -> Option<Seq<char>> {
    match r {
        Some(s) => Some(s@),
        None => None,
    }
}

/// One outcome the converter `f` allows on candidate text `input`: some call
/// of `f` on a string holding `input` may return a value viewed as `out`.
pub open spec fn converter_allows<F: Fn(String) -> Option<String>>(
    f: &F,
    input: Seq<char>,
    out: Option<Seq<char>>,
) -> bool {
    exists|x: String, r: Option<String>|
        x@ == input && opt_view(r) == out && #[trigger] call_ensures(*f, (x,), r)
}

/// The converter's outcomes are a function of the candidate's characters
/// alone, given by the model `m`.
pub open spec fn converter_models<F: Fn(String) -> Option<String>>(
    f: &F,
    m: spec_fn(Seq<char>) -> Option<Seq<char>>,
) -> bool {
    forall|x: String, r: Option<String>| #[trigger] call_ensures(*f, (x,), r) ==> opt_view(r) == m(x@)
}

/// What `resolve` establishes about its result `(p, s)` on raw text `raw`:
/// `s` is the trailing part of `raw` left raw; if anything was converted,
/// the converter returned `p` on the prefix in front of `s`; every prefix
/// longer than that one was probed and rejected; and if nothing converts
/// the whole text is left raw and the converted prefix is empty.
pub open spec fn resolve_post<F: Fn(String) -> Option<String>>(
    f: &F,
    raw: Seq<char>,
    p: Seq<char>,
    s: Seq<char>,
) -> bool {
    &&& s.len() <= raw.len()
    &&& s == raw.subrange(raw.len() - s.len(), raw.len() as int)
    &&& (s.len() < raw.len() ==> converter_allows(f, raw.take(raw.len() - s.len()), Some(p)))
    &&& (forall|j: int|
        raw.len() - s.len() < j <= raw.len() ==> converter_allows(
            f,
            raw.take(j),
            Option::<Seq<char>>::None,
        ))
    &&& (s.len() == raw.len() ==> p == Seq::<char>::empty() && s == raw)
}

/// The split that the boundary search yields on `raw` when the converter is
/// the pure function `m`: the residual `s` is a suffix of `raw`, `m`
/// converts the prefix in front of it to `p`, and `m` rejects every longer
/// prefix - so the residual is the shortest trailing remainder consistent
/// with a successful conversion of everything before it.
pub open spec fn resolution(
    raw: Seq<char>,
    m: spec_fn(Seq<char>) -> Option<Seq<char>>,
    p: Seq<char>,
    s: Seq<char>,
) -> bool {
    &&& s.len() <= raw.len()
    &&& s == raw.subrange(raw.len() - s.len(), raw.len() as int)
    &&& (s.len() < raw.len() ==> m(raw.take(raw.len() - s.len())) == Some(p))
    &&& (forall|j: int| raw.len() - s.len() < j <= raw.len() ==> #[trigger] m(raw.take(j)) is None)
    &&& (s.len() == raw.len() ==> p == Seq::<char>::empty() && s == raw)
}

/// Split `raw` into a converted prefix and a residual raw suffix.
///
/// The scan probes the prefixes of `raw` ending at each scalar boundary, the
/// longest first; the first prefix the converter accepts determines the
/// boundary, its conversion is returned together with the remaining suffix.
/// If no non-empty prefix converts, the whole text is returned as residual.
/// Rejection by the converter is the expected negative outcome driving the
/// search, never an error.
pub fn resolve<F: Fn(String) -> Option<String>>(raw: &str, convert: &F) -> (r: (String, String))
    requires
        forall|x: String| call_requires(*convert, (x,)),
    ensures
        resolve_post(convert, raw@, r.0@, r.1@),
{
    let n = raw.unicode_len();
    let mut i = n;
    while i > 0
        invariant
            i <= n,
            n == raw@.len(),
            forall|x: String| call_requires(*convert, (x,)),
            forall|j: int|
                i < j <= n ==> converter_allows(convert, raw@.take(j), Option::<Seq<char>>::None),
        decreases i,
    {
        let part = String::from_str(raw.substring_char(0, i));
        let ghost gpart = part;
        let res = (*convert)(part);
        proof {
            assert(call_ensures(*convert, (gpart,), res));
            assert(converter_allows(convert, raw@.take(i as int), opt_view(res)));
        }
        match res {
            Some(converted) => {
                let rest = String::from_str(raw.substring_char(i, n));
                return (converted, rest);
            },
            None => {},
        }
        i = i - 1;
    }
    proof {
        assert(raw@.subrange(0, raw@.len() as int) =~= raw@);
    }
    (String::new(), String::from_str(raw))
}

/// Concatenation of the converted prefix and the residual: the whole-buffer
/// best-effort conversion handed to the clipboard and the look-up.
pub open spec fn full_conversion<F: Fn(String) -> Option<String>>(
    f: &F,
    raw: Seq<char>,
    out: Seq<char>,
) -> bool {
    exists|p: Seq<char>, s: Seq<char>| #[trigger] resolve_post(f, raw, p, s) && out == p + s
}

/// Convert as much of `raw` as possible and stitch the residual back on, so
/// the result is a displayable projection of the whole text.
pub fn convert_all<F: Fn(String) -> Option<String>>(raw: &str, convert: &F) -> (r: String)
    requires
        forall|x: String| call_requires(*convert, (x,)),
    ensures
        full_conversion(convert, raw@, r@),
{
    let (p, s) = resolve(raw, convert);
    let ghost gp = p@;
    let ghost gs = s@;
    let r = p.concat(s.as_str());
    proof {
        assert(resolve_post(convert, raw@, gp, gs) && r@ == gp + gs);
    }
    r
}

/// When the converter's outcomes are pinned by a model `m`, the relational
/// facts `resolve` establishes determine the pure resolution of the text.
pub proof fn lemma_resolution_from_model<F: Fn(String) -> Option<String>>(
    f: &F,
    m: spec_fn(Seq<char>) -> Option<Seq<char>>,
    raw: Seq<char>,
    p: Seq<char>,
    s: Seq<char>,
)
    requires
        converter_models(f, m),
        resolve_post(f, raw, p, s),
    ensures
        resolution(raw, m, p, s),
{
    assert forall|j: int| raw.len() - s.len() < j <= raw.len() implies #[trigger] m(
        raw.take(j),
    ) is None by {
        let (x, r) = choose|x: String, r: Option<String>|
            x@ == raw.take(j) && opt_view(r) == Option::<Seq<char>>::None && #[trigger] call_ensures(
                *f,
                (x,),
                r,
            );
        assert(m(x@) == opt_view(r));
    }
    if s.len() < raw.len() {
        let (x, r) = choose|x: String, r: Option<String>|
            x@ == raw.take(raw.len() - s.len()) && opt_view(r) == Some(p) && #[trigger] call_ensures(
                *f,
                (x,),
                r,
            );
        assert(m(x@) == opt_view(r));
    }
}

/// Idempotence of the boundary search: two runs of `resolve` on the same
/// raw text, with a converter whose outcomes are deterministic - pinned by
/// some model `m` - establish the identical split.
pub proof fn lemma_resolve_idempotent<F: Fn(String) -> Option<String>>(
    f: &F,
    m: spec_fn(Seq<char>) -> Option<Seq<char>>,
    raw: Seq<char>,
    p1: Seq<char>,
    s1: Seq<char>,
    p2: Seq<char>,
    s2: Seq<char>,
)
    requires
        converter_models(f, m),
        resolve_post(f, raw, p1, s1),
        resolve_post(f, raw, p2, s2),
    ensures
        p1 == p2,
        s1 == s2,
{
    lemma_resolution_from_model(f, m, raw, p1, s1);
    lemma_resolution_from_model(f, m, raw, p2, s2);
    lemma_resolution_unique(raw, m, p1, s1, p2, s2);
}

/// The resolution of a text under a deterministic converter is unique: the
/// split is a function of the raw text and the model alone, so recomputing
/// it - as the renderer does after every keystroke - always yields the same
/// converted prefix and the same residual.
pub proof fn lemma_resolution_unique(
    raw: Seq<char>,
    m: spec_fn(Seq<char>) -> Option<Seq<char>>,
    p1: Seq<char>,
    s1: Seq<char>,
    p2: Seq<char>,
    s2: Seq<char>,
)
    requires
        resolution(raw, m, p1, s1),
        resolution(raw, m, p2, s2),
    ensures
        p1 == p2,
        s1 == s2,
{
    let i1 = raw.len() - s1.len();
    let i2 = raw.len() - s2.len();
    if i1 < i2 {
        assert(m(raw.take(i2)) is None);
        assert(s2.len() < raw.len());
        assert(false);
    }
    if i2 < i1 {
        assert(m(raw.take(i1)) is None);
        assert(s1.len() < raw.len());
        assert(false);
    }
    assert(s1 == s2);
    if s1.len() < raw.len() {
        assert(m(raw.take(i1)) == Some(p1));
        assert(m(raw.take(i2)) == Some(p2));
    }
}

} // verus!
