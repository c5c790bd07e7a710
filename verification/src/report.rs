//! The driver tier classification and the final report value.
//!
//! A tier records which context-creation request succeeded; the report
//! packages the tier together with the four identity strings queried from
//! the driver, and renders the canonical four-line text.

use vstd::prelude::*;
use vstd::string::StringExecFns;

verus! {

/// Which context-creation request succeeded: the platform's default core
/// profile, the GLES API, or a legacy OpenGL 2.1 context.
#[derive(Clone, Copy, Debug, PartialEq, Eq, Structural)]
pub enum GLDriver {
    LibGL,
    LibGLES,
    LegacyLibGL,
}

/// The exact label each tier carries in the report's first line.
pub open spec fn label_spec(d: GLDriver) -> Seq<char> {
    match d {
        GLDriver::LibGL => "LibGL"@,
        GLDriver::LibGLES => "LibGLES"@,
        GLDriver::LegacyLibGL => "libGL"@,
    }
}

impl GLDriver {
    /// The tier's label as it appears in the report.
    pub fn label(&self) -> (r: &'static str)
        ensures
            r@ == label_spec(*self),
    {
        match self {
            GLDriver::LibGL => "LibGL",
            GLDriver::LibGLES => "LibGLES",
            GLDriver::LegacyLibGL => "libGL",
        }
    }
}

/// Every tier's label is one of exactly three strings.
pub proof fn lemma_label_one_of_three(d: GLDriver)
    ensures
        label_spec(d) == "LibGL"@ || label_spec(d) == "LibGLES"@ || label_spec(d) == "libGL"@,
{
}

/// The finished report: the tier that won negotiation and the four identity
/// strings queried from the driver. A string the driver does not offer is
/// recorded as empty text, never as an absent field.
#[derive(Clone, Debug)]
pub struct GLInfo {
    pub driver: GLDriver,
    pub vendor: String,
    pub renderer: String,
    pub version: String,
    pub shading_language: String,
}

/// The report's mathematical shape: the tier and the four strings as
/// character sequences.
pub struct ReportV {
    pub driver: GLDriver,
    pub vendor: Seq<char>,
    pub renderer: Seq<char>,
    pub version: Seq<char>,
    pub shading_language: Seq<char>,
}

impl View for GLInfo {
    type V = ReportV;

    open spec fn view(&self) -> ReportV {
        ReportV {
            driver: self.driver,
            vendor: self.vendor@,
            renderer: self.renderer@,
            version: self.version@,
            shading_language: self.shading_language@,
        }
    }
}

/// The canonical four-line text of a report: the tier's label and the
/// vendor on the first line, then renderer, version, and shading language,
/// each on a line of its own.
pub open spec fn render_spec(rv: ReportV) -> Seq<char> {
    label_spec(rv.driver) + " Vendor: "@ + rv.vendor + "\nRenderer: "@ + rv.renderer
        + "\nVersion: "@ + rv.version + "\nShading Language: "@ + rv.shading_language
}

impl GLInfo {
    /// Packages a tier and the four identity strings into a report; pure
    /// and total, with no failure mode.
    pub fn assemble(
        driver: GLDriver,
        vendor: String,
        renderer: String,
        version: String,
        shading_language: String,
    ) -> (r: GLInfo)
        ensures
            r.driver == driver,
            r.vendor == vendor,
            r.renderer == renderer,
            r.version == version,
            r.shading_language == shading_language,
    {
        GLInfo { driver, vendor, renderer, version, shading_language }
    }

    /// Renders the report as its canonical four-line text.
    pub fn render(&self) -> (r: String)
        ensures
            r@ == render_spec(self@),
    {
        let mut out = String::from_str(self.driver.label());
        out.append(" Vendor: ");
        out.append(self.vendor.as_str());
        out.append("\nRenderer: ");
        out.append(self.renderer.as_str());
        out.append("\nVersion: ");
        out.append(self.version.as_str());
        out.append("\nShading Language: ");
        out.append(self.shading_language.as_str());
        out
    }
}

/// `needle` occurs in `hay` starting at position `i`.
pub open spec fn contains_at(hay: Seq<char>, i: int, needle: Seq<char>) -> bool {
    0 <= i && i + needle.len() <= hay.len() && hay.subrange(i, i + needle.len()) == needle
}

/// Every rendered report carries the text `Vendor:`, whatever the tier and
/// whatever the driver's strings.
pub proof fn lemma_render_contains_vendor(rv: ReportV)
    ensures
        exists|i: int| contains_at(render_spec(rv), i, "Vendor:"@),
{
    reveal_strlit("Vendor:");
    reveal_strlit(" Vendor: ");
    match rv.driver {
        GLDriver::LibGL => {
            reveal_strlit("LibGL");
        },
        GLDriver::LibGLES => {
            reveal_strlit("LibGLES");
        },
        GLDriver::LegacyLibGL => {
            reveal_strlit("libGL");
        },
    }
    let s = render_spec(rv);
    let l = label_spec(rv.driver);
    let i: int = l.len() as int + 1;
    assert(s.subrange(i, i + 7) =~= "Vendor:"@);
    assert(contains_at(s, i, "Vendor:"@));
}

} // verus!
