//! The trusted boundary to the external QR encoder.
//!
//! Everything combinatorial — segmentation, Reed–Solomon error correction,
//! version and mask selection — happens inside the `qrcode` crate. This
//! module wraps that single call, names its result, and maps its error
//! into the library's own error type.

use vstd::prelude::*;
use crate::grid::ModuleGrid;
use crate::options::{ErrorCorrectionLevel, QrForgeError};
use crate::validate::{contains_dot, normalized_url, validate_url};

verus! {

#[verifier::external_type_specification]
#[verifier::external_body]
pub struct ExQrError(qrcode::types::QrError);

/// What the external encoder produces for the given data at the given
/// error-correction rank: `None` when it rejects the data, otherwise the
/// module grid as a sequence of rows. Uninterpreted: the grid is a
/// deterministic function of data and level, but restating the encoding
/// here would duplicate the whole external algorithm.
pub uninterp spec fn qr_encoding(data: Seq<char>, ec_rank: int) -> Option<Seq<Seq<bool>>>;

/// Relies on qrcode::QrCode::with_error_correction_level: the symbol is a
/// deterministic function of the data bytes and the error-correction level;
/// it is square with 21 to 177 modules per side (normal QR versions 1 to
/// 40); and to_colors() lists its modules in row-major order.
#[verifier::external_body]
fn qrcode_encode(data: &str, level: ErrorCorrectionLevel) -> (r: Result<
    ModuleGrid,
    qrcode::types::QrError,
>)
    ensures
        r is Ok <==> qr_encoding(data@, level.rank()) is Some,
        r matches Ok(g) ==> {
            &&& g.rows() == qr_encoding(data@, level.rank())->Some_0
            &&& 21 <= g.width <= 177
            &&& g.modules@.len() == g.width * g.width
        },
{
    let ec = match level {
        ErrorCorrectionLevel::Low => qrcode::EcLevel::L,
        ErrorCorrectionLevel::Medium => qrcode::EcLevel::M,
        ErrorCorrectionLevel::Quartile => qrcode::EcLevel::Q,
        ErrorCorrectionLevel::High => qrcode::EcLevel::H,
    };
    let code = qrcode::QrCode::with_error_correction_level(data, ec)?;
    let width = code.width();
    let modules = code.to_colors().into_iter().map(|c| c == qrcode::Color::Dark).collect();
    Ok(ModuleGrid { width, modules })
}

/// Validates a URL-like input, then encodes the normalized URL into a
/// module grid.
///
/// Fails with `InvalidInput` exactly when the normalized input contains no
/// dot, and with `EncodingFailure` exactly when the external encoder
/// rejects the (plausible) URL.
pub fn encode_url(input: &str, level: ErrorCorrectionLevel) -> (r: Result<
    ModuleGrid,
    QrForgeError,
>)
    ensures
        r is Ok <==> contains_dot(normalized_url(input@)) && qr_encoding(
            normalized_url(input@),
            level.rank(),
        ) is Some,
        r matches Ok(g) ==> {
            &&& g.wf()
            &&& 21 <= g.width <= 177
            &&& g.rows() == qr_encoding(normalized_url(input@), level.rank())->Some_0
        },
        r matches Err(e) ==> e == (if !contains_dot(normalized_url(input@)) {
            QrForgeError::InvalidInput
        } else {
            QrForgeError::EncodingFailure
        }),
{
    match validate_url(input) {
        Err(e) => Err(e),
        Ok(url) => match qrcode_encode(url.as_str(), level) {
            Err(_) => Err(QrForgeError::EncodingFailure),
            Ok(g) => Ok(g),
        },
    }
}

} // verus!
