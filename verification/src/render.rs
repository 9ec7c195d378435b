use vstd::prelude::*;

use vstd::string::StringExecFns;

use crate::restaurants::Restaurant;

verus! {

/// The star glyphs of a rating: the glyph repeated once per point, with
/// nothing rendered for a missing or non-positive rating.
pub open spec fn spec_stars(n: int) -> Seq<char>
    decreases n,
{
    if n <= 0 {
        Seq::empty()
    } else {
        spec_stars(n - 1) + "\u{2b50}"@
    }
}

fn stars(n: i16) -> (r: String)
    ensures
        r@ == spec_stars(n as int),
{
    let mut s = String::new();
    if n <= 0 {
        return s;
    }
    let mut i: i16 = 0;
    while i < n
        invariant
            0 <= i <= n,
            s@ == spec_stars(i as int),
        decreases n - i,
    {
        s.append("\u{2b50}");
        i = i + 1;
    }
    s
}

/// The favorite marker of a row.
pub open spec fn spec_icon(fav: bool) -> Seq<char> {
    if fav {
        "\u{2764}\u{fe0f}"@
    } else {
        "\u{1f90d}"@
    }
}

/// The description a row displays: its text, or nothing.
pub open spec fn spec_desc(d: Option<String>) -> Seq<char> {
    match d {
        Some(s) => s@,
        None => Seq::empty(),
    }
}

/// The rating a row displays stars for: its value, or zero when absent.
pub open spec fn spec_rating_points(r: Option<i16>) -> int {
    match r {
        Some(n) => n as int,
        None => 0,
    }
}

/// The display fragment of one row.
pub open spec fn spec_item(r: Restaurant) -> Seq<char> {
    r#"<li class='p-4 border rounded-lg shadow-sm bg-white'>
                                            <div class='flex justify-between items-start'>
                                                <div>
                                                    <h4 class='font-bold text-lg text-gray-800'>"#@ + r.name@ + r#"</h4>
                                                    <p class='text-sm text-gray-500'>"#@ + r.city@ + r#"</p>
                                                </div>
                                                <span class='text-xl'>"#@ + spec_icon(r.is_favorite) + r#"</span>
                                            </div>
                                            <p class='text-gray-700 mt-2'>"#@ + spec_desc(
        r.description,
    ) + r#"</p>
                                            <p class='text-yellow-500 font-bold mt-2'>"#@ + spec_stars(spec_rating_points(r.rating)) + r#"</p>
                                        </li>"#@
}

/// Renders one row into its list item.
pub fn render_item(r: &Restaurant) -> (out: String)
    ensures
        out@ == spec_item(*r),
{
    let mut s = String::new();
    s.append(r#"<li class='p-4 border rounded-lg shadow-sm bg-white'>
                                            <div class='flex justify-between items-start'>
                                                <div>
                                                    <h4 class='font-bold text-lg text-gray-800'>"#);
    s.append(r.name.as_str());
    s.append(r#"</h4>
                                                    <p class='text-sm text-gray-500'>"#);
    s.append(r.city.as_str());
    s.append(r#"</p>
                                                </div>
                                                <span class='text-xl'>"#);
    if r.is_favorite {
        s.append("\u{2764}\u{fe0f}");
    } else {
        s.append("\u{1f90d}");
    }
    s.append(r#"</span>
                                            </div>
                                            <p class='text-gray-700 mt-2'>"#);
    match &r.description {
        Some(d) => s.append(d.as_str()),
        None => (),
    }
    s.append(r#"</p>
                                            <p class='text-yellow-500 font-bold mt-2'>"#);
    let points = match r.rating {
        Some(n) => n,
        None => 0,
    };
    let st = stars(points);
    s.append(st.as_str());
    s.append(r#"</p>
                                        </li>"#);
    s
}

/// The display fragments of the rows, in order.
pub open spec fn spec_items(rows: Seq<Restaurant>) -> Seq<char>
    decreases rows.len(),
{
    if rows.len() == 0 {
        Seq::empty()
    } else {
        spec_item(rows.first()) + spec_items(rows.drop_first())
    }
}

proof fn lemma_items_push(rows: Seq<Restaurant>, x: Restaurant)
    ensures
        spec_items(rows.push(x)) == spec_items(rows) + spec_item(x),
    decreases rows.len(),
{
    if rows.len() == 0 {
        assert(rows.push(x).first() == x);
        assert(rows.push(x).drop_first() =~= Seq::<Restaurant>::empty());
        assert(spec_items(Seq::<Restaurant>::empty()) == Seq::<char>::empty());
        assert(spec_items(rows.push(x)) == spec_item(x) + Seq::<char>::empty());
        assert(spec_items(rows.push(x)) =~= spec_items(rows) + spec_item(x));
    } else {
        assert(rows.push(x).first() == rows.first());
        assert(rows.push(x).drop_first() =~= rows.drop_first().push(x));
        lemma_items_push(rows.drop_first(), x);
        assert(spec_item(rows.first()) + (spec_items(rows.drop_first()) + spec_item(x)) =~= (
        spec_item(rows.first()) + spec_items(rows.drop_first())) + spec_item(x));
    }
}

/// The display fragment of a non-empty listing.
pub open spec fn spec_list_fragment(rows: Seq<Restaurant>) -> Seq<char> {
    "<ul class='space-y-4'>"@ + spec_items(rows) + "</ul>"@
}

/// Renders the rows into the listing fragment.
pub fn render_list(rows: &Vec<Restaurant>) -> (out: String)
    ensures
        out@ == spec_list_fragment(rows@),
{
    let mut s = String::new();
    s.append("<ul class='space-y-4'>");
    let n = rows.len();
    let mut i: usize = 0;
    while i < n
        invariant
            i <= n,
            n == rows@.len(),
            s@ == "<ul class='space-y-4'>"@ + spec_items(rows@.take(i as int)),
        decreases n - i,
    {
        let item = render_item(&rows[i]);
        s.append(item.as_str());
        proof {
            assert(rows@.take(i + 1) =~= rows@.take(i as int).push(rows@[i as int]));
            lemma_items_push(rows@.take(i as int), rows@[i as int]);
            assert(("<ul class='space-y-4'>"@ + spec_items(rows@.take(i as int))) + spec_item(
                rows@[i as int],
            ) =~= "<ul class='space-y-4'>"@ + (spec_items(rows@.take(i as int)) + spec_item(
                rows@[i as int],
            )));
        }
        i += 1;
    }
    proof {
        assert(rows@.take(n as int) =~= rows@);
    }
    s.append("</ul>");
    s
}

/// The greeting fragment of a signed-in user.
pub open spec fn spec_userinfo(username: Seq<char>) -> Seq<char> {
    "\u{1f44b} Bonjour, <strong>"@ + username + "</strong> !"@
}

/// Renders the greeting of a signed-in user.
pub fn render_userinfo(username: &str) -> (out: String)
    ensures
        out@ == spec_userinfo(username@),
{
    let mut s = String::new();
    s.append("\u{1f44b} Bonjour, <strong>");
    s.append(username);
    s.append("</strong> !");
    s
}

} // verus!
