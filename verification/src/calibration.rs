//! Calibration targets chosen for a session, and how the front end names
//! them.

use vstd::prelude::*;
use crate::text::{decimal_text, push_decimal, same_text};
use crate::hal::error::prefixed;

verus! {

/// Target color space.
#[derive(Debug, Clone, Copy, PartialEq, Eq, Structural)]
pub enum TargetSpace {
    Bt709,
    Bt2020,
    DciP3,
    Custom,
}

/// Target tone curve; a power-law gamma is given in hundredths (240 is
/// gamma 2.4).
#[derive(Debug, Clone, Copy, PartialEq, Eq, Structural)]
pub enum ToneCurve {
    Gamma(u32),
    Bt1886,
    Pq,
    Hlg,
    Custom,
}

/// Target white point: a standard one, or a custom white given by its X
/// and Y tristimulus values in ten-thousandths (rounded).
#[derive(Debug, Clone, Copy, PartialEq, Eq, Structural)]
pub enum WhitePoint {
    D65,
    D50,
    Dci,
    Custom { x: u64, y: u64 },
}

/// How much of the display a calibration corrects.
#[derive(Debug, Clone, Copy, PartialEq, Eq, Structural)]
pub enum CalibrationTier {
    GrayscaleOnly,
    GrayscalePlus3D,
    Full3D,
}

/// The target space the front end names `name`.
pub open spec fn target_space_named(name: Seq<char>) -> Option<TargetSpace> {
    if name == "Rec.2020"@ {
        Some(TargetSpace::Bt2020)
    } else if name == "DCI-P3"@ {
        Some(TargetSpace::DciP3)
    } else if name == "Rec.709"@ {
        Some(TargetSpace::Bt709)
    } else {
        None
    }
}

/// The tone curve the front end names `name`.
pub open spec fn tone_curve_named(name: Seq<char>) -> Option<ToneCurve> {
    if name == "Gamma 2.2"@ {
        Some(ToneCurve::Gamma(220))
    } else if name == "Gamma 2.4"@ {
        Some(ToneCurve::Gamma(240))
    } else if name == "BT.1886"@ {
        Some(ToneCurve::Bt1886)
    } else if name == "PQ"@ {
        Some(ToneCurve::Pq)
    } else if name == "HLG"@ {
        Some(ToneCurve::Hlg)
    } else {
        None
    }
}

/// The white point the front end names `name`.
pub open spec fn white_point_named(name: Seq<char>) -> Option<WhitePoint> {
    if name == "D50"@ {
        Some(WhitePoint::D50)
    } else if name == "DCI"@ {
        Some(WhitePoint::Dci)
    } else if name == "D65"@ {
        Some(WhitePoint::D65)
    } else {
        None
    }
}

/// The tier the front end names `name`; unknown names mean grayscale only.
pub open spec fn tier_named(name: Seq<char>) -> CalibrationTier {
    if name == "GrayscalePlus3D"@ {
        CalibrationTier::GrayscalePlus3D
    } else if name == "Full3D"@ {
        CalibrationTier::Full3D
    } else {
        CalibrationTier::GrayscaleOnly
    }
}

/// Parses a target space name; unknown names are refused with
/// "Invalid target_space: <name>".
pub fn parse_target_space(name: &str) -> (r: Result<TargetSpace, String>)
    ensures
        target_space_named(name@) matches Some(t) ==> r == Ok::<TargetSpace, String>(t),
        target_space_named(name@) is None ==> (r matches Err(m) && m@ == "Invalid target_space: "@
            + name@),
{
    if same_text(name, "Rec.2020") {
        Ok(TargetSpace::Bt2020)
    } else if same_text(name, "DCI-P3") {
        Ok(TargetSpace::DciP3)
    } else if same_text(name, "Rec.709") {
        Ok(TargetSpace::Bt709)
    } else {
        Err(prefixed("Invalid target_space: ", name))
    }
}

/// Parses a tone curve name; unknown names are refused with
/// "Invalid tone_curve: <name>".
pub fn parse_tone_curve(name: &str) -> (r: Result<ToneCurve, String>)
    ensures
        tone_curve_named(name@) matches Some(t) ==> r == Ok::<ToneCurve, String>(t),
        tone_curve_named(name@) is None ==> (r matches Err(m) && m@ == "Invalid tone_curve: "@
            + name@),
{
    if same_text(name, "Gamma 2.2") {
        Ok(ToneCurve::Gamma(220))
    } else if same_text(name, "Gamma 2.4") {
        Ok(ToneCurve::Gamma(240))
    } else if same_text(name, "BT.1886") {
        Ok(ToneCurve::Bt1886)
    } else if same_text(name, "PQ") {
        Ok(ToneCurve::Pq)
    } else if same_text(name, "HLG") {
        Ok(ToneCurve::Hlg)
    } else {
        Err(prefixed("Invalid tone_curve: ", name))
    }
}

/// Parses a white point name; unknown names are refused with
/// "Invalid white_point: <name>".
pub fn parse_white_point(name: &str) -> (r: Result<WhitePoint, String>)
    ensures
        white_point_named(name@) matches Some(w) ==> r == Ok::<WhitePoint, String>(w),
        white_point_named(name@) is None ==> (r matches Err(m) && m@ == "Invalid white_point: "@
            + name@),
{
    if same_text(name, "D50") {
        Ok(WhitePoint::D50)
    } else if same_text(name, "DCI") {
        Ok(WhitePoint::Dci)
    } else if same_text(name, "D65") {
        Ok(WhitePoint::D65)
    } else {
        Err(prefixed("Invalid white_point: ", name))
    }
}

/// Parses a tier name; unknown names mean grayscale only.
pub fn parse_tier(name: &str) -> (r: CalibrationTier)
    ensures
        r == tier_named(name@),
{
    if same_text(name, "GrayscalePlus3D") {
        CalibrationTier::GrayscalePlus3D
    } else if same_text(name, "Full3D") {
        CalibrationTier::Full3D
    } else {
        CalibrationTier::GrayscaleOnly
    }
}

/// Whether a tier builds a 3D LUT.
pub fn uses_3d_lut(tier: CalibrationTier) -> (r: bool)
    ensures
        r == (tier != CalibrationTier::GrayscaleOnly),
{
    match tier {
        CalibrationTier::GrayscaleOnly => false,
        _ => true,
    }
}

/// Report label of a target space.
pub open spec fn target_space_label(t: TargetSpace) -> Seq<char> {
    match t {
        TargetSpace::Bt709 => "Rec.709"@,
        TargetSpace::Bt2020 => "Rec.2020"@,
        TargetSpace::DciP3 => "DCI-P3"@,
        TargetSpace::Custom => "Custom"@,
    }
}

/// Formats a target space for reports.
pub fn format_target_space(t: &TargetSpace) -> (r: String)
    ensures
        r@ == target_space_label(*t),
{
    match t {
        TargetSpace::Bt709 => String::from_str("Rec.709"),
        TargetSpace::Bt2020 => String::from_str("Rec.2020"),
        TargetSpace::DciP3 => String::from_str("DCI-P3"),
        TargetSpace::Custom => String::from_str("Custom"),
    }
}

/// A value in hundredths written with two decimals: 240 is "2.40".
pub open spec fn hundredths_text(v: nat) -> Seq<char> {
    decimal_text(v / 100) + "."@ + decimal_text((v % 100) / 10) + decimal_text(v % 10)
}

/// Report label of a tone curve.
pub open spec fn tone_curve_label(c: ToneCurve) -> Seq<char> {
    match c {
        ToneCurve::Gamma(g) => "Gamma "@ + hundredths_text(g as nat),
        ToneCurve::Bt1886 => "BT.1886"@,
        ToneCurve::Pq => "PQ (ST.2084)"@,
        ToneCurve::Hlg => "HLG"@,
        ToneCurve::Custom => "Custom"@,
    }
}

/// Formats a tone curve for reports; a gamma is written with two decimals.
pub fn format_tone_curve(c: &ToneCurve) -> (r: String)
    ensures
        r@ == tone_curve_label(*c),
{
    match c {
        ToneCurve::Gamma(g) => {
            let mut s = String::from_str("Gamma ");
            push_decimal(&mut s, (*g / 100) as u64);
            s.append(".");
            push_decimal(&mut s, ((*g % 100) / 10) as u64);
            push_decimal(&mut s, (*g % 10) as u64);
            s
        },
        ToneCurve::Bt1886 => String::from_str("BT.1886"),
        ToneCurve::Pq => String::from_str("PQ (ST.2084)"),
        ToneCurve::Hlg => String::from_str("HLG"),
        ToneCurve::Custom => String::from_str("Custom"),
    }
}

/// Report label of a white point.
pub open spec fn white_point_label(w: WhitePoint) -> Seq<char> {
    match w {
        WhitePoint::D65 => "D65"@,
        WhitePoint::D50 => "D50"@,
        WhitePoint::Dci => "DCI"@,
        WhitePoint::Custom { x, y } => "Custom ("@ + ten_thousandths_text(x as nat) + ", "@
            + ten_thousandths_text(y as nat) + ")"@,
    }
}

/// A value in ten-thousandths written with four decimals: 3127 is
/// "0.3127".
pub open spec fn ten_thousandths_text(v: nat) -> Seq<char> {
    decimal_text(v / 10000) + "."@ + decimal_text((v / 1000) % 10) + decimal_text((v / 100) % 10)
        + decimal_text((v / 10) % 10) + decimal_text(v % 10)
}

fn push_ten_thousandths(s: &mut String, v: u64)
    ensures
        final(s)@ == old(s)@ + ten_thousandths_text(v as nat),
{
    let ghost start = s@;
    push_decimal(s, v / 10000);
    s.append(".");
    push_decimal(s, (v / 1000) % 10);
    push_decimal(s, (v / 100) % 10);
    push_decimal(s, (v / 10) % 10);
    push_decimal(s, v % 10);
    assert(s@ =~= start + ten_thousandths_text(v as nat));
}

/// Formats a white point for reports.
pub fn format_white_point(w: &WhitePoint) -> (r: String)
    ensures
        r@ == white_point_label(*w),
{
    match w {
        WhitePoint::D65 => String::from_str("D65"),
        WhitePoint::D50 => String::from_str("D50"),
        WhitePoint::Dci => String::from_str("DCI"),
        WhitePoint::Custom { x, y } => {
            let mut s = String::from_str("Custom (");
            push_ten_thousandths(&mut s, *x);
            s.append(", ");
            push_ten_thousandths(&mut s, *y);
            s.append(")");
            s
        },
    }
}

/// Report label of a tier.
pub open spec fn tier_label(t: CalibrationTier) -> Seq<char> {
    match t {
        CalibrationTier::GrayscaleOnly => "Grayscale Only"@,
        CalibrationTier::GrayscalePlus3D => "Grayscale + 3D LUT"@,
        CalibrationTier::Full3D => "Full 3D LUT"@,
    }
}

/// Formats a tier for reports.
pub fn format_tier(t: &CalibrationTier) -> (r: String)
    ensures
        r@ == tier_label(*t),
{
    match t {
        CalibrationTier::GrayscaleOnly => String::from_str("Grayscale Only"),
        CalibrationTier::GrayscalePlus3D => String::from_str("Grayscale + 3D LUT"),
        CalibrationTier::Full3D => String::from_str("Full 3D LUT"),
    }
}

/// Named RGB gamuts whose primaries the front end can draw.
#[derive(Debug, Clone, Copy, PartialEq, Eq, Structural)]
pub enum GamutKind {
    Rec709,
    Rec2020,
    DciP3,
    AdobeRgb,
}

/// The gamut a front end name selects; "sRGB" shares the Rec.709 primaries.
pub open spec fn gamut_named(name: Seq<char>) -> Option<GamutKind> {
    if name == "Rec.709"@ || name == "sRGB"@ {
        Some(GamutKind::Rec709)
    } else if name == "Rec.2020"@ {
        Some(GamutKind::Rec2020)
    } else if name == "DCI-P3"@ {
        Some(GamutKind::DciP3)
    } else if name == "Adobe RGB"@ {
        Some(GamutKind::AdobeRgb)
    } else {
        None
    }
}

/// Parses a gamut name; unknown names are refused with
/// "Invalid target_space: <name>".
pub fn parse_gamut(name: &str) -> (r: Result<GamutKind, String>)
    ensures
        gamut_named(name@) matches Some(g) ==> r == Ok::<GamutKind, String>(g),
        gamut_named(name@) is None ==> (r matches Err(m) && m@ == "Invalid target_space: "@
            + name@),
{
    if same_text(name, "Rec.709") || same_text(name, "sRGB") {
        Ok(GamutKind::Rec709)
    } else if same_text(name, "Rec.2020") {
        Ok(GamutKind::Rec2020)
    } else if same_text(name, "DCI-P3") {
        Ok(GamutKind::DciP3)
    } else if same_text(name, "Adobe RGB") {
        Ok(GamutKind::AdobeRgb)
    } else {
        Err(prefixed("Invalid target_space: ", name))
    }
}

/// Which chromaticity diagram a request names.
#[derive(Debug, Clone, Copy, PartialEq, Eq, Structural)]
pub enum DiagramKind {
    Cie1931,
    Cie1976,
}

/// Parses a diagram name: "1931" or "1976"; anything else is refused with
/// "Invalid diagram: <name>".
pub fn parse_diagram(name: &str) -> (r: Result<DiagramKind, String>)
    ensures
        name@ == "1931"@ ==> r == Ok::<DiagramKind, String>(DiagramKind::Cie1931),
        name@ == "1976"@ ==> r == Ok::<DiagramKind, String>(DiagramKind::Cie1976),
        name@ != "1931"@ && name@ != "1976"@ ==> (r matches Err(m) && m@ == "Invalid diagram: "@
            + name@),
{
    proof {
        reveal_strlit("1931");
        reveal_strlit("1976");
        assert("1976"@[2] != "1931"@[2]);
    }
    if same_text(name, "1931") {
        Ok(DiagramKind::Cie1931)
    } else if same_text(name, "1976") {
        Ok(DiagramKind::Cie1976)
    } else {
        Err(prefixed("Invalid diagram: ", name))
    }
}

} // verus!
