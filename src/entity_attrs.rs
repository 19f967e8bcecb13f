use vstd::prelude::*;
use vstd::string::*;

verus! {

/// What `str::trim` makes of a text.
pub uninterp spec fn trim_of(s: Seq<char>) -> Seq<char>;

/// Relies on `str::trim`: its result depends on the characters alone.
#[verifier::external_body]
fn trimmed(s: &str) -> (r: String)
    ensures
        r@ == trim_of(s@),
{
    s.trim().to_string()
}

/// The attribute line that generated code puts on a column of the custom type `t`.
pub open spec fn column_marker(t: Seq<char>) -> Seq<char> {
    "#[sea_orm(column_type = \"custom(\\\""@ + t + "\\\")\")]"@
}

/// The attribute that already marks a column as ignored.
pub open spec fn ignore_marker() -> Seq<char> {
    "#[sea_orm(ignore)]"@
}

/// The three lines put after a column of a custom type.
pub open spec fn skip_lines() -> Seq<Seq<char>> {
    seq!["    #[oai(skip)]"@, "    #[serde(skip)]"@, "    #[sea_orm(ignore)]"@]
}

/// Line `k` marks a column of one of `types`, and the line after it does not
/// already mark that column as ignored.
pub open spec fn needs_skip(lines: Seq<Seq<char>>, k: int, types: Seq<Seq<char>>) -> bool {
    &&& exists|j: int| 0 <= j < types.len() && trim_of(lines[k]) == column_marker(#[trigger] types[j])
    &&& (k + 1 >= lines.len() || trim_of(lines[k + 1]) != ignore_marker())
}

/// The lines with the three skip lines put after each line that needs them.
pub open spec fn with_skips(lines: Seq<Seq<char>>, n: int, types: Seq<Seq<char>>) -> Seq<Seq<char>>
    decreases n,
{
    if n <= 0 {
        Seq::empty()
    } else {
        with_skips(lines, n - 1, types) + seq![lines[n - 1]] + if needs_skip(lines, n - 1, types) {
            skip_lines()
        } else {
            Seq::empty()
        }
    }
}

fn marker_of(t: &String) -> (r: String)
    ensures
        r@ == column_marker(t@),
{
    let head = String::from_str("#[sea_orm(column_type = \"custom(\\\"");
    head.concat(t.as_str()).concat("\\\")\")]")
}

fn marks_column(trimmed_line: &String, markers: &Vec<String>) -> (r: bool)
    ensures
        r == exists|j: int| 0 <= j < markers@.len() && trimmed_line@ == (#[trigger] markers@[j])@,
{
    let mut j: usize = 0;
    while j < markers.len()
        invariant
            j <= markers.len(),
            forall|i: int| 0 <= i < j ==> trimmed_line@ != (#[trigger] markers@[i])@,
        decreases markers.len() - j,
    {
        if *trimmed_line == markers[j] {
            return true;
        }
        j = j + 1;
    }
    false
}

/// Marks the columns of the given custom types as skipped: after each line
/// that, trimmed, is the column-type attribute of one of `types`, and that is
/// not already followed by `#[sea_orm(ignore)]`, puts `#[oai(skip)]`,
/// `#[serde(skip)]` and `#[sea_orm(ignore)]`. Also says whether any line was added.
pub fn patch_column_type_ignore_attr(lines: &Vec<String>, types: &Vec<String>) -> (r: (
    Vec<String>,
    bool,
))
    ensures
        r.0.deep_view() == with_skips(lines.deep_view(), lines.len() as int, types.deep_view()),
        r.1 == exists|k: int| 0 <= k < lines.len() && needs_skip(lines.deep_view(), k, types.deep_view()),
{
    let ghost ls = lines.deep_view();
    let ghost ts = types.deep_view();
    let mut markers: Vec<String> = Vec::new();
    let mut j: usize = 0;
    while j < types.len()
        invariant
            j <= types.len(),
            markers.len() == j,
            ts == types.deep_view(),
            forall|i: int| 0 <= i < j ==> (#[trigger] markers@[i])@ == column_marker(ts[i]),
        decreases types.len() - j,
    {
        markers.push(marker_of(&types[j]));
        j = j + 1;
    }
    let ignore = String::from_str("#[sea_orm(ignore)]");
    let oai = String::from_str("    #[oai(skip)]");
    let serde = String::from_str("    #[serde(skip)]");
    let sea = String::from_str("    #[sea_orm(ignore)]");
    proof {
        reveal_strlit("#[sea_orm(ignore)]");
    }
    let mut out: Vec<String> = Vec::new();
    let mut changed = false;
    let mut k: usize = 0;
    while k < lines.len()
        invariant
            k <= lines.len(),
            ls == lines.deep_view(),
            ts == types.deep_view(),
            markers.len() == types.len(),
            forall|i: int| 0 <= i < markers.len() ==> (#[trigger] markers@[i])@ == column_marker(ts[i]),
            ignore@ == ignore_marker(),
            oai@ == skip_lines()[0],
            serde@ == skip_lines()[1],
            sea@ == skip_lines()[2],
            out.deep_view() == with_skips(ls, k as int, ts),
            changed == exists|i: int| 0 <= i < k && needs_skip(ls, i, ts),
        decreases lines.len() - k,
    {
        let t = trimmed(lines[k].as_str());
        let marked = marks_column(&t, &markers);
        let followed = if k + 1 < lines.len() {
            let next = trimmed(lines[k + 1].as_str());
            next == ignore
        } else {
            false
        };
        proof {
            if marked {
                let j = choose|j: int| 0 <= j < markers@.len() && t@ == (#[trigger] markers@[j])@;
                assert(trim_of(ls[k as int]) == column_marker(ts[j]));
            }
            if exists|j: int| 0 <= j < ts.len() && trim_of(ls[k as int]) == column_marker(#[trigger] ts[j]) {
                let j = choose|j: int| 0 <= j < ts.len() && trim_of(ls[k as int]) == column_marker(#[trigger] ts[j]);
                assert(t@ == markers@[j]@);
            }
        }
        let needs = marked && !followed;
        assert(needs == needs_skip(ls, k as int, ts));
        out.push(lines[k].clone());
        if needs {
            out.push(oai.clone());
            out.push(serde.clone());
            out.push(sea.clone());
            changed = true;
        }
        assert(out.deep_view() =~= with_skips(ls, k + 1, ts));
        k = k + 1;
    }
    (out, changed)
}

} // verus!
