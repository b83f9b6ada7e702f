//! The built-in monochromatic themes, their lookup by name, and the listing
//! that `--list` prints.

use vstd::prelude::*;
use crate::text::{
    decimal, decimal_reads_back, digits_value, has_prefix, has_suffix, occurs_in, pad_right,
    padding_keeps_the_text, push_decimal, push_padded, same_text,
};

verus! {

/// A built-in theme: its name, what it looks like, and the band of
/// wavelengths (in nanometres) its colour lies in.
#[derive(Debug, Clone, Copy)]
pub struct Theme {
    pub name: &'static str,
    pub description: &'static str,
    pub wavelength_range: (u16, u16),
}

/// The built-in themes, in the order they are listed.
pub open spec fn theme_table() -> Seq<Theme> {
    seq![
        Theme { name: "military", description: "Night-vision, tactical", wavelength_range: (530, 560) },
        Theme { name: "green", description: "Classic P1 green CRT", wavelength_range: (520, 530) },
        Theme { name: "amber", description: "Classic P3 amber CRT", wavelength_range: (598, 608) },
        Theme { name: "alert", description: "Warning lights, emergency", wavelength_range: (620, 680) },
        Theme { name: "cyber", description: "Neon, futuristic", wavelength_range: (485, 500) },
        Theme { name: "arctic", description: "Cold, ice", wavelength_range: (460, 480) },
        Theme { name: "cobalt", description: "Industrial", wavelength_range: (450, 470) },
        Theme { name: "void", description: "Deep, cosmic", wavelength_range: (400, 430) },
        Theme { name: "toxic", description: "Radioactive", wavelength_range: (550, 570) },
        Theme { name: "infrared", description: "Thermal camera", wavelength_range: (620, 700) },
        Theme { name: "rose", description: "Soft, lo-fi", wavelength_range: (600, 650) },
        Theme { name: "sepia", description: "Old photograph", wavelength_range: (580, 620) },
        Theme { name: "walnut", description: "Dark stained wood", wavelength_range: (580, 610) },
        Theme { name: "white", description: "Classic P4 white CRT", wavelength_range: (380, 700) },
    ]
}

/// Returns the built-in themes, in the order they are listed.
pub fn builtin_themes() -> (r: Vec<Theme>)
    ensures
        r@ == theme_table(),
{
    let r = vec![
        Theme { name: "military", description: "Night-vision, tactical", wavelength_range: (530, 560) },
        Theme { name: "green", description: "Classic P1 green CRT", wavelength_range: (520, 530) },
        Theme { name: "amber", description: "Classic P3 amber CRT", wavelength_range: (598, 608) },
        Theme { name: "alert", description: "Warning lights, emergency", wavelength_range: (620, 680) },
        Theme { name: "cyber", description: "Neon, futuristic", wavelength_range: (485, 500) },
        Theme { name: "arctic", description: "Cold, ice", wavelength_range: (460, 480) },
        Theme { name: "cobalt", description: "Industrial", wavelength_range: (450, 470) },
        Theme { name: "void", description: "Deep, cosmic", wavelength_range: (400, 430) },
        Theme { name: "toxic", description: "Radioactive", wavelength_range: (550, 570) },
        Theme { name: "infrared", description: "Thermal camera", wavelength_range: (620, 700) },
        Theme { name: "rose", description: "Soft, lo-fi", wavelength_range: (600, 650) },
        Theme { name: "sepia", description: "Old photograph", wavelength_range: (580, 620) },
        Theme { name: "walnut", description: "Dark stained wood", wavelength_range: (580, 610) },
        Theme { name: "white", description: "Classic P4 white CRT", wavelength_range: (380, 700) },
    ];
    assert(r@ =~= theme_table());
    r
}

/// Whether some built-in theme has the name `name`.
pub open spec fn is_theme_name(name: Seq<char>) -> bool {
    exists|i: int| 0 <= i < theme_table().len() && (#[trigger] theme_table()[i]).name@ == name
}

/// Returns the position in the table of the theme named `name`, if any.
pub fn find_theme_index(name: &str) -> (r: Option<usize>)
    ensures
        r matches Some(i) ==> i < theme_table().len() && theme_table()[i as int].name@ == name@,
        r is None ==> !is_theme_name(name@),
{
    let themes = builtin_themes();
    let mut i: usize = 0;
    while i < themes.len()
        invariant
            themes@ == theme_table(),
            i <= themes@.len(),
            forall|j: int| 0 <= j < i ==> (#[trigger] theme_table()[j]).name@ != name@,
        decreases themes.len() - i,
    {
        if same_text(themes[i].name, name) {
            return Some(i);
        }
        i = i + 1;
    }
    None
}

/// Returns the built-in theme named `name`, if there is one.
pub fn find_theme(name: &str) -> (r: Option<Theme>)
    ensures
        r matches Some(t) ==> t.name@ == name@ && theme_table().contains(t),
        r is None ==> !is_theme_name(name@),
{
    match find_theme_index(name) {
        Some(i) => {
            let themes = builtin_themes();
            Some(themes[i])
        },
        None => None,
    }
}

/// Returns the theme at position `i` of the table.
pub fn theme_at(i: usize) -> (r: Theme)
    requires
        i < theme_table().len(),
    ensures
        r == theme_table()[i as int],
{
    let themes = builtin_themes();
    themes[i]
}

/// No two built-in themes share a name.
pub proof fn theme_names_are_distinct()
    ensures
        forall|i: int, j: int|
            0 <= i < j < theme_table().len() ==> (#[trigger] theme_table()[i]).name@
                != (#[trigger] theme_table()[j]).name@,
{
    reveal_strlit("military");
    reveal_strlit("green");
    reveal_strlit("amber");
    reveal_strlit("alert");
    reveal_strlit("cyber");
    reveal_strlit("arctic");
    reveal_strlit("cobalt");
    reveal_strlit("void");
    reveal_strlit("toxic");
    reveal_strlit("infrared");
    reveal_strlit("rose");
    reveal_strlit("sepia");
    reveal_strlit("walnut");
    reveal_strlit("white");
    let t = theme_table();
    assert forall|i: int, j: int| 0 <= i < j < t.len() implies t[i].name@ != t[j].name@ by {
        if t[i].name@ == t[j].name@ {
            assert(t[i].name@[0] == t[j].name@[0]);
            assert(t[i].name@.len() == t[j].name@.len());
            assert(t[i].name@[1] == t[j].name@[1]);
            assert(t[i].name@[2] == t[j].name@[2]);
        }
    }
}

/// Every listed theme is found again by its own name.
pub proof fn every_theme_is_found_by_name(i: int)
    requires
        0 <= i < theme_table().len(),
    ensures
        is_theme_name(theme_table()[i].name@),
        forall|j: int|
            0 <= j < theme_table().len() && (#[trigger] theme_table()[j]).name@
                == theme_table()[i].name@ ==> j == i,
{
    theme_names_are_distinct();
    assert(theme_table()[i].name@ == theme_table()[i].name@);
}

/// The wavelength band of a theme as the listing shows it, e.g. `530-560 nm`.
pub open spec fn wavelength_text(t: Theme) -> Seq<char> {
    decimal(t.wavelength_range.0 as nat) + "-"@ + decimal(t.wavelength_range.1 as nat) + " nm"@
}

/// The line that lists one theme: its name, its wavelength band and its
/// description, in columns.
pub open spec fn listing_row(t: Theme) -> Seq<char> {
    "  "@ + pad_right(t.name@, 12) + " "@ + pad_right(wavelength_text(t), 14) + " "@
        + t.description@ + "\n"@
}

/// The lines that list the given themes, in order.
pub open spec fn listing_rows(ts: Seq<Theme>) -> Seq<char>
    decreases ts.len(),
{
    if ts.len() == 0 {
        Seq::empty()
    } else {
        listing_rows(ts.drop_last()) + listing_row(ts.last())
    }
}

/// The heading of the theme listing.
pub const LISTING_HEADING: &'static str = "Available themes:\n\n";

/// The usage lines that close the theme listing.
pub const LISTING_USAGE: &'static str = "\nUsage: hypr-vogix --theme <NAME> [--opacity] [--brightness] [--saturation] [--invert ALGO]\n       hypr-vogix --restore --theme <NAME> [--opacity] [--brightness] [--saturation]\n";

/// The whole text that `--list` prints.
pub open spec fn listing_text() -> Seq<char> {
    LISTING_HEADING@ + listing_rows(theme_table()) + LISTING_USAGE@
}

fn push_listing_row(out: &mut String, t: &Theme)
    ensures
        final(out)@ == old(out)@ + listing_row(*t),
{
    let mut band = String::new();
    push_decimal(&mut band, t.wavelength_range.0 as u64);
    band.append("-");
    push_decimal(&mut band, t.wavelength_range.1 as u64);
    band.append(" nm");
    assert(band@ =~= wavelength_text(*t));
    let ghost start = out@;
    out.append("  ");
    push_padded(out, t.name, 12);
    out.append(" ");
    push_padded(out, band.as_str(), 14);
    out.append(" ");
    out.append(t.description);
    out.append("\n");
    assert(out@ =~= start + listing_row(*t));
}

/// Returns the text that `--list` prints: every built-in theme with its
/// wavelength band and description, then how to apply one.
pub fn themes_listing() -> (r: String)
    ensures
        r@ == listing_text(),
{
    let themes = builtin_themes();
    let mut out = String::from_str(LISTING_HEADING);
    let mut i: usize = 0;
    while i < themes.len()
        invariant
            themes@ == theme_table(),
            i <= themes@.len(),
            out@ == LISTING_HEADING@ + listing_rows(themes@.subrange(0, i as int)),
        decreases themes.len() - i,
    {
        let ghost before = themes@.subrange(0, i as int);
        push_listing_row(&mut out, &themes[i]);
        assert(themes@.subrange(0, i + 1).drop_last() =~= before);
        assert(out@ =~= LISTING_HEADING@ + listing_rows(themes@.subrange(0, i + 1)));
        i = i + 1;
    }
    assert(themes@.subrange(0, themes@.len() as int) =~= themes@);
    out.append(LISTING_USAGE);
    out
}

proof fn rows_show_each_theme(ts: Seq<Theme>, i: int)
    requires
        0 <= i < ts.len(),
    ensures
        occurs_in(listing_row(ts[i]), listing_rows(ts)),
    decreases ts.len(),
{
    let rows = listing_rows(ts);
    let row = listing_row(ts[i]);
    if i == ts.len() - 1 {
        let k = listing_rows(ts.drop_last()).len() as int;
        assert(rows.subrange(k, k + row.len()) =~= row);
    } else {
        rows_show_each_theme(ts.drop_last(), i);
        assert(ts.drop_last()[i] == ts[i]);
        let before = listing_rows(ts.drop_last());
        let k = choose|k: int|
            0 <= k && k + row.len() <= before.len() && #[trigger] before.subrange(k, k + row.len())
                == row;
        assert(rows.subrange(k, k + row.len()) =~= before.subrange(k, k + row.len()));
    }
}

/// The listing shows every built-in theme, each on a line of its own with
/// its name, wavelength band and description.
pub proof fn listing_shows_every_theme(i: int)
    requires
        0 <= i < theme_table().len(),
    ensures
        occurs_in(listing_row(theme_table()[i]), listing_text()),
{
    rows_show_each_theme(theme_table(), i);
    let rows = listing_rows(theme_table());
    let row = listing_row(theme_table()[i]);
    let k = choose|k: int|
        0 <= k && k + row.len() <= rows.len() && #[trigger] rows.subrange(k, k + row.len()) == row;
    let h = LISTING_HEADING@.len() as int;
    assert(listing_text().subrange(h + k, h + k + row.len()) =~= rows.subrange(k, k + row.len()));
}

/// The row of every theme, each in its own place.
pub open spec fn theme_rows(ts: Seq<Theme>) -> Seq<Seq<char>> {
    ts.map_values(|t: Theme| listing_row(t))
}

proof fn rows_are_the_rows_of_each_theme(ts: Seq<Theme>)
    ensures
        listing_rows(ts) == theme_rows(ts).flatten(),
    decreases ts.len(),
{
    theme_rows(ts).lemma_flatten_and_flatten_alt_are_equivalent();
    if ts.len() > 0 {
        rows_are_the_rows_of_each_theme(ts.drop_last());
        theme_rows(ts.drop_last()).lemma_flatten_and_flatten_alt_are_equivalent();
        assert(theme_rows(ts).drop_last() =~= theme_rows(ts.drop_last()));
        assert(theme_rows(ts).last() == listing_row(ts.last()));
    } else {
        assert(theme_rows(ts) =~= Seq::<Seq<char>>::empty());
    }
}

/// The listing is its heading, then exactly one row for each built-in theme,
/// in the table's order, and nothing else, then the usage lines.
pub proof fn listing_is_one_row_per_theme()
    ensures
        listing_text() == LISTING_HEADING@ + theme_rows(theme_table()).flatten() + LISTING_USAGE@,
        theme_rows(theme_table()).len() == theme_table().len(),
        forall|i: int|
            0 <= i < theme_table().len() ==> #[trigger] theme_rows(theme_table())[i] == listing_row(
                theme_table()[i],
            ),
{
    rows_are_the_rows_of_each_theme(theme_table());
}

/// Each theme's row starts with two spaces and the theme's name in a column
/// of at least twelve characters, shows its wavelength band as the two
/// numbers it is made of (`lo-hi nm`), and ends with its description.
pub proof fn rows_show_name_band_and_description(t: Theme)
    ensures
        has_prefix(listing_row(t), "  "@ + t.name@),
        pad_right(t.name@, 12).len() >= 12,
        occurs_in(wavelength_text(t), listing_row(t)),
        wavelength_text(t) == decimal(t.wavelength_range.0 as nat) + "-"@ + decimal(
            t.wavelength_range.1 as nat,
        ) + " nm"@,
        digits_value(decimal(t.wavelength_range.0 as nat)) == t.wavelength_range.0,
        digits_value(decimal(t.wavelength_range.1 as nat)) == t.wavelength_range.1,
        has_suffix(listing_row(t), t.description@ + "\n"@),
        t.name@.len() <= 12 ==> listing_row(t).subrange(15, 15 + wavelength_text(t).len() as int)
            == wavelength_text(t),
        t.name@.len() <= 12 && wavelength_text(t).len() <= 14 ==> listing_row(t).subrange(
            30,
            listing_row(t).len() as int,
        ) == t.description@ + "\n"@,
{
    let r = listing_row(t);
    let n = pad_right(t.name@, 12);
    let w = pad_right(wavelength_text(t), 14);
    padding_keeps_the_text(t.name@, 12);
    padding_keeps_the_text(wavelength_text(t), 14);
    decimal_reads_back(t.wavelength_range.0 as nat);
    decimal_reads_back(t.wavelength_range.1 as nat);
    assert(n =~= t.name@ + n.subrange(t.name@.len() as int, n.len() as int));
    assert(r =~= "  "@ + t.name@ + (n.subrange(t.name@.len() as int, n.len() as int) + " "@ + w
        + " "@ + t.description@ + "\n"@));
    assert(r.subrange(0, ("  "@ + t.name@).len() as int) =~= "  "@ + t.name@);
    let wt = wavelength_text(t);
    assert(w =~= wt + w.subrange(wt.len() as int, w.len() as int));
    let k = ("  "@ + n + " "@).len() as int;
    assert(r.subrange(k, k + wt.len()) =~= wt);
    let d = t.description@ + "\n"@;
    assert(r.subrange(r.len() - d.len(), r.len() as int) =~= d);
    reveal_strlit("  ");
    reveal_strlit(" ");
    if t.name@.len() <= 12 {
        assert(k == 15);
        if wt.len() <= 14 {
            assert(r =~= ("  "@ + n + " "@ + w + " "@) + d);
            assert(("  "@ + n + " "@ + w + " "@).len() == 30);
            assert(r.subrange(30, r.len() as int) =~= d);
        }
    }
}

} // verus!
