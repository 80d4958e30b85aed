//! User-facing options: error kinds, the error-correction and output-format
//! selectors, and the render configuration.

use vstd::prelude::*;
use vstd::string::*;

verus! {

/// The ways a generation request can fail.
#[derive(Clone, Copy, Debug, PartialEq, Eq, Structural)]
pub enum QrForgeError {
    /// The URL heuristic, the error-correction selector or the format
    /// selector rejected the input.
    InvalidInput,
    /// The external QR encoder rejected the data, e.g. because it exceeds
    /// the maximum symbol capacity.
    EncodingFailure,
    /// A file write or a metadata read failed. Produced only by unverified
    /// I/O adapters; the rendering functions themselves never fail this way.
    IoFailure,
}

impl QrForgeError {
    /// A short human-readable description of the error kind.
    pub fn message(&self) -> (m: &'static str)
        ensures
            *self is InvalidInput ==> m@ == "invalid input"@,
            *self is EncodingFailure ==> m@ == "QR encoding failed"@,
            *self is IoFailure ==> m@ == "file I/O failed"@,
    {
        match self {
            QrForgeError::InvalidInput => "invalid input",
            QrForgeError::EncodingFailure => "QR encoding failed",
            QrForgeError::IoFailure => "file I/O failed",
        }
    }
}

/// The four standard QR error-correction classes, in increasing redundancy.
#[derive(Clone, Copy, Debug, PartialEq, Eq, Structural)]
pub enum ErrorCorrectionLevel {
    Low,
    Medium,
    Quartile,
    High,
}

/// True when `c` is the lower- or the upper-case form of a selector letter.
pub open spec fn ci_eq(c: char, lower: char, upper: char) -> bool {
    c == lower || c == upper
}

/// Which error-correction level a selector string denotes: the single
/// letters `L`, `M`, `Q`, `H`, accepted in either case. Anything else is
/// no selector.
pub open spec fn ec_selector(s: Seq<char>) -> Option<ErrorCorrectionLevel> {
    if s.len() == 1 {
        if ci_eq(s[0], 'l', 'L') {
            Some(ErrorCorrectionLevel::Low)
        } else if ci_eq(s[0], 'm', 'M') {
            Some(ErrorCorrectionLevel::Medium)
        } else if ci_eq(s[0], 'q', 'Q') {
            Some(ErrorCorrectionLevel::Quartile)
        } else if ci_eq(s[0], 'h', 'H') {
            Some(ErrorCorrectionLevel::High)
        } else {
            None
        }
    } else {
        None
    }
}

impl ErrorCorrectionLevel {
    /// The level's position in the standard `L < M < Q < H` order.
    pub open spec fn rank(self) -> int {
        match self {
            ErrorCorrectionLevel::Low => 0,
            ErrorCorrectionLevel::Medium => 1,
            ErrorCorrectionLevel::Quartile => 2,
            ErrorCorrectionLevel::High => 3,
        }
    }

    /// Parses a selector string; rejects everything but the four letters.
    pub fn from_selector(s: &str) -> (r: Result<ErrorCorrectionLevel, QrForgeError>)
        ensures
            r is Ok <==> ec_selector(s@) is Some,
            r matches Ok(v) ==> ec_selector(s@) == Some(v),
            r matches Err(e) ==> e == QrForgeError::InvalidInput,
    {
        if s.unicode_len() == 1 {
            match s.get_char(0) {
                'L' | 'l' => Ok(ErrorCorrectionLevel::Low),
                'M' | 'm' => Ok(ErrorCorrectionLevel::Medium),
                'Q' | 'q' => Ok(ErrorCorrectionLevel::Quartile),
                'H' | 'h' => Ok(ErrorCorrectionLevel::High),
                _ => Err(QrForgeError::InvalidInput),
            }
        } else {
            Err(QrForgeError::InvalidInput)
        }
    }

    /// The label shown in selector widgets.
    pub fn to_string(self) -> (m: &'static str)
        ensures
            self is Low ==> m@ == "L (Low)"@,
            self is Medium ==> m@ == "M (Medium)"@,
            self is Quartile ==> m@ == "Q (Quartile)"@,
            self is High ==> m@ == "H (High)"@,
    {
        match self {
            ErrorCorrectionLevel::Low => "L (Low)",
            ErrorCorrectionLevel::Medium => "M (Medium)",
            ErrorCorrectionLevel::Quartile => "Q (Quartile)",
            ErrorCorrectionLevel::High => "H (High)",
        }
    }
}

/// The supported output containers.
#[derive(Clone, Copy, Debug, PartialEq, Eq, Structural)]
pub enum OutputFormat {
    Png,
    Jpg,
    Bmp,
    Svg,
}

/// Which output format a selector string denotes: `png`, `jpg`, `jpeg`,
/// `bmp` or `svg`, accepted in any mix of ASCII case. Anything else is no
/// selector and must not fall back to a default.
pub open spec fn format_selector(s: Seq<char>) -> Option<OutputFormat> {
    if s.len() == 3 {
        if ci_eq(s[0], 'p', 'P') && ci_eq(s[1], 'n', 'N') && ci_eq(s[2], 'g', 'G') {
            Some(OutputFormat::Png)
        } else if ci_eq(s[0], 'j', 'J') && ci_eq(s[1], 'p', 'P') && ci_eq(s[2], 'g', 'G') {
            Some(OutputFormat::Jpg)
        } else if ci_eq(s[0], 'b', 'B') && ci_eq(s[1], 'm', 'M') && ci_eq(s[2], 'p', 'P') {
            Some(OutputFormat::Bmp)
        } else if ci_eq(s[0], 's', 'S') && ci_eq(s[1], 'v', 'V') && ci_eq(s[2], 'g', 'G') {
            Some(OutputFormat::Svg)
        } else {
            None
        }
    } else if s.len() == 4 {
        if ci_eq(s[0], 'j', 'J') && ci_eq(s[1], 'p', 'P') && ci_eq(s[2], 'e', 'E') && ci_eq(
            s[3],
            'g',
            'G',
        ) {
            Some(OutputFormat::Jpg)
        } else {
            None
        }
    } else {
        None
    }
}

/// True when `c` is `lower` or `upper`.
fn ci_matches(c: char, lower: char, upper: char) -> (r: bool)
    ensures
        r == ci_eq(c, lower, upper),
{
    c == lower || c == upper
}

impl OutputFormat {
    /// Parses a selector string; rejects every unknown format.
    pub fn from_selector(s: &str) -> (r: Result<OutputFormat, QrForgeError>)
        ensures
            r is Ok <==> format_selector(s@) is Some,
            r matches Ok(v) ==> format_selector(s@) == Some(v),
            r matches Err(e) ==> e == QrForgeError::InvalidInput,
    {
        let n = s.unicode_len();
        if n == 3 {
            let c0 = s.get_char(0);
            let c1 = s.get_char(1);
            let c2 = s.get_char(2);
            if ci_matches(c0, 'p', 'P') && ci_matches(c1, 'n', 'N') && ci_matches(c2, 'g', 'G') {
                Ok(OutputFormat::Png)
            } else if ci_matches(c0, 'j', 'J') && ci_matches(c1, 'p', 'P') && ci_matches(
                c2,
                'g',
                'G',
            ) {
                Ok(OutputFormat::Jpg)
            } else if ci_matches(c0, 'b', 'B') && ci_matches(c1, 'm', 'M') && ci_matches(
                c2,
                'p',
                'P',
            ) {
                Ok(OutputFormat::Bmp)
            } else if ci_matches(c0, 's', 'S') && ci_matches(c1, 'v', 'V') && ci_matches(
                c2,
                'g',
                'G',
            ) {
                Ok(OutputFormat::Svg)
            } else {
                Err(QrForgeError::InvalidInput)
            }
        } else if n == 4 {
            let c0 = s.get_char(0);
            let c1 = s.get_char(1);
            let c2 = s.get_char(2);
            let c3 = s.get_char(3);
            if ci_matches(c0, 'j', 'J') && ci_matches(c1, 'p', 'P') && ci_matches(c2, 'e', 'E')
                && ci_matches(c3, 'g', 'G') {
                Ok(OutputFormat::Jpg)
            } else {
                Err(QrForgeError::InvalidInput)
            }
        } else {
            Err(QrForgeError::InvalidInput)
        }
    }

    /// The label shown in selector widgets.
    pub fn to_string(self) -> (m: &'static str)
        ensures
            self is Png ==> m@ == "PNG"@,
            self is Jpg ==> m@ == "JPG"@,
            self is Bmp ==> m@ == "BMP"@,
            self is Svg ==> m@ == "SVG"@,
    {
        match self {
            OutputFormat::Png => "PNG",
            OutputFormat::Jpg => "JPG",
            OutputFormat::Bmp => "BMP",
            OutputFormat::Svg => "SVG",
        }
    }

    /// The file extension the format is saved under.
    pub fn extension(self) -> (m: &'static str)
        ensures
            self is Png ==> m@ == "png"@,
            self is Jpg ==> m@ == "jpg"@,
            self is Bmp ==> m@ == "bmp"@,
            self is Svg ==> m@ == "svg"@,
    {
        match self {
            OutputFormat::Png => "png",
            OutputFormat::Jpg => "jpg",
            OutputFormat::Bmp => "bmp",
            OutputFormat::Svg => "svg",
        }
    }
}

/// The knobs of one render request. The colors are hex strings without a
/// leading `#` and are honored by the vector path only; the bitmap path is
/// fixed to black on white.
pub struct RenderConfig {
    /// Target side length in pixels or SVG units.
    pub size: u32,
    /// Empty modules around the symbol, in module counts.
    pub margin: u32,
    /// Foreground (module) color.
    pub fg_color: String,
    /// Background color.
    pub bg_color: String,
}

impl Default for RenderConfig {
    /// An 800-pixel black-on-white render with the standard quiet zone of
    /// four modules.
    fn default() -> (c: Self)
        ensures
            c.size == 800,
            c.margin == 4,
            c.fg_color@ == "000000"@,
            c.bg_color@ == "ffffff"@,
    {
        RenderConfig {
            size: 800,
            margin: 4,
            fg_color: String::from_str("000000"),
            bg_color: String::from_str("ffffff"),
        }
    }
}

} // verus!
