use vstd::prelude::*;
use vstd::string::*;

verus! {

/// What `str::to_lowercase` makes of a text.
pub uninterp spec fn lower_of(s: Seq<char>) -> Seq<char>;

/// Relies on `str::to_lowercase`: its result depends on the characters alone.
#[verifier::external_body]
fn lowercase(s: &str) -> (r: String)
    ensures
        r@ == lower_of(s@),
{
    s.to_lowercase()
}

/// `s` with every space turned into an underscore.
pub open spec fn underscored(s: Seq<char>) -> Seq<char> {
    Seq::new(s.len(), |i: int| if s[i] == ' ' { '_' } else { s[i] })
}

/// The one canonical slug of a title: lowercase, spaces as underscores.
pub open spec fn canonical_slug(title: Seq<char>) -> Seq<char> {
    underscored(lower_of(title))
}

/// Replaces each space of `s` by an underscore and keeps every other character.
pub fn underscore_spaces(s: &str) -> (r: String)
    ensures
        r@ == underscored(s@),
{
    let n = s.unicode_len();
    let mut out = String::new();
    let under = "_";
    proof {
        reveal_strlit("_");
    }
    let mut i: usize = 0;
    while i < n
        invariant
            n == s@.len(),
            i <= n,
            under@ == seq!['_'],
            out@ == underscored(s@.subrange(0, i as int)),
        decreases n - i,
    {
        let c = s.get_char(i);
        if c == ' ' {
            out.append(under);
        } else {
            out.append(s.substring_char(i, i + 1));
        }
        assert(underscored(s@.subrange(0, i + 1)) =~= underscored(s@.subrange(0, i as int))
            + underscored(s@.subrange(i as int, i + 1)));
        i = i + 1;
    }
    assert(s@.subrange(0, n as int) =~= s@);
    out
}

/// The slug that a post with this title is stored under.
pub fn slug_of(title: &str) -> (r: String)
    ensures
        r@ == canonical_slug(title@),
{
    let lower = lowercase(title);
    underscore_spaces(lower.as_str())
}

} // verus!
