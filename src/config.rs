use vstd::prelude::*;
use vstd::string::*;

verus! {

/// Settings read once at process start and handed to what needs them.
pub struct AppConfig {
    pub database_url: String,
    pub jwt_public_key: String,
}

/// `s` with each two-character escape `\n` turned into a line break.
pub open spec fn unescaped(s: Seq<char>) -> Seq<char>
    decreases s.len(),
{
    if s.len() == 0 {
        s
    } else if s.len() >= 2 && s[0] == '\\' && s[1] == 'n' {
        seq!['\n'] + unescaped(s.subrange(2, s.len() as int))
    } else {
        seq![s[0]] + unescaped(s.subrange(1, s.len() as int))
    }
}

/// Turns each escaped `\n` of a key given on one line back into a line break.
pub fn unescape_newlines(s: &str) -> (r: String)
    ensures
        r@ == unescaped(s@),
{
    let n = s.unicode_len();
    let newline = "\n";
    proof {
        reveal_strlit("\n");
    }
    let mut out = String::new();
    let mut i: usize = 0;
    assert(s@.subrange(0, n as int) =~= s@);
    assert(out@ + unescaped(s@) =~= unescaped(s@));
    while i < n
        invariant
            n == s@.len(),
            i <= n,
            newline@ == seq!['\n'],
            out@ + unescaped(s@.subrange(i as int, n as int)) == unescaped(s@),
        decreases n - i,
    {
        let ghost rest = s@.subrange(i as int, n as int);
        if i + 1 < n && s.get_char(i) == '\\' && s.get_char(i + 1) == 'n' {
            assert(rest.subrange(2, rest.len() as int) =~= s@.subrange(i + 2, n as int));
            out.append(newline);
            assert(out@ + unescaped(s@.subrange(i + 2, n as int)) =~= unescaped(s@));
            i = i + 2;
        } else {
            let one = s.substring_char(i, i + 1);
            assert(rest.subrange(1, rest.len() as int) =~= s@.subrange(i + 1, n as int));
            assert(one@ =~= seq![rest[0]]);
            out.append(one);
            assert(out@ + unescaped(s@.subrange(i + 1, n as int)) =~= unescaped(s@));
            i = i + 1;
        }
    }
    assert(s@.subrange(n as int, n as int) =~= Seq::<char>::empty());
    assert(out@ + Seq::<char>::empty() =~= out@);
    out
}

impl AppConfig {
    /// The settings, with the public key's escaped line breaks restored.
    pub fn new(database_url: String, jwt_public_key: &str) -> (r: AppConfig)
        ensures
            r.database_url@ == database_url@,
            r.jwt_public_key@ == unescaped(jwt_public_key@),
    {
        AppConfig { database_url, jwt_public_key: unescape_newlines(jwt_public_key) }
    }
}

} // verus!
