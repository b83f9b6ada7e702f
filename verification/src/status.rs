//! The report that `--status` prints about the overlay in effect.

use vstd::prelude::*;
use crate::text::{has_prefix, has_suffix, occurs_in};

verus! {

/// What the saved state says of the overlay in effect, with its figures
/// already written out as text (the caller formats them to one decimal).
pub struct StatusFigures {
    pub theme: String,
    pub opacity: String,
    pub brightness: String,
    pub saturation: String,
    pub invert: bool,
}

/// The report for a saved overlay, or for none.
pub open spec fn status_report(saved: Option<StatusFigures>) -> Seq<char> {
    match saved {
        Some(s) => "Active overlay:\n\n"@ + "  theme:      "@ + s.theme@ + "\n"@ + "  opacity:    "@
            + s.opacity@ + "\n"@ + "  brightness: "@ + s.brightness@ + "\n"@ + "  saturation: "@
            + s.saturation@ + "\n"@ + (if s.invert {
            "  invert:     true\n"@
        } else {
            Seq::empty()
        }),
        None => "No active overlay.\n"@,
    }
}

/// Returns the report that `--status` prints: the saved theme and figures,
/// or that no overlay is active.
pub fn status_text(saved: &Option<StatusFigures>) -> (r: String)
    ensures
        r@ == status_report(*saved),
{
    match saved {
        Some(s) => {
            let mut out = String::from_str("Active overlay:\n\n");
            out.append("  theme:      ");
            out.append(s.theme.as_str());
            out.append("\n");
            out.append("  opacity:    ");
            out.append(s.opacity.as_str());
            out.append("\n");
            out.append("  brightness: ");
            out.append(s.brightness.as_str());
            out.append("\n");
            out.append("  saturation: ");
            out.append(s.saturation.as_str());
            out.append("\n");
            if s.invert {
                out.append("  invert:     true\n");
            } else {
                assert(out@ + Seq::<char>::empty() =~= out@);
            }
            out
        },
        None => String::from_str("No active overlay.\n"),
    }
}

proof fn occurs_after(a: Seq<char>, t: Seq<char>, b: Seq<char>)
    ensures
        occurs_in(t, a + t + b),
{
    assert((a + t + b).subrange(a.len() as int, (a.len() + t.len()) as int) =~= t);
}

/// With a saved overlay, the report opens with `Active overlay:`, shows the
/// theme and each figure on a line of its own, and ends with the invert line
/// exactly when luminance is inverted; with none it says so and nothing else.
pub proof fn status_shows_the_saved_overlay(s: StatusFigures)
    ensures
        has_prefix(status_report(Some(s)), "Active overlay:\n\n"@),
        occurs_in("  theme:      "@ + s.theme@ + "\n"@, status_report(Some(s))),
        occurs_in("  opacity:    "@ + s.opacity@ + "\n"@, status_report(Some(s))),
        occurs_in("  brightness: "@ + s.brightness@ + "\n"@, status_report(Some(s))),
        s.invert ==> has_suffix(status_report(Some(s)), "  invert:     true\n"@),
        !s.invert ==> has_suffix(status_report(Some(s)), "  saturation: "@ + s.saturation@ + "\n"@),
        status_report(None) == "No active overlay.\n"@,
{
    let r = status_report(Some(s));
    let h = "Active overlay:\n\n"@;
    let t = "  theme:      "@ + s.theme@ + "\n"@;
    let o = "  opacity:    "@ + s.opacity@ + "\n"@;
    let b = "  brightness: "@ + s.brightness@ + "\n"@;
    let sa = "  saturation: "@ + s.saturation@ + "\n"@;
    let inv = if s.invert { "  invert:     true\n"@ } else { Seq::<char>::empty() };
    assert(r =~= h + t + o + b + sa + inv);
    assert(r.subrange(0, h.len() as int) =~= h);
    assert(r =~= h + t + (o + b + sa + inv));
    occurs_after(h, t, o + b + sa + inv);
    assert(r =~= (h + t) + o + (b + sa + inv));
    occurs_after(h + t, o, b + sa + inv);
    assert(r =~= (h + t + o) + b + (sa + inv));
    occurs_after(h + t + o, b, sa + inv);
    if s.invert {
        assert(r.subrange(r.len() - inv.len(), r.len() as int) =~= inv);
    } else {
        assert(r =~= h + t + o + b + sa);
        assert(r.subrange(r.len() - sa.len(), r.len() as int) =~= sa);
    }
}

} // verus!
