//! Login tickets as pictures and links: the QR picture of a ticket, its form
//! as a data address, and its form inside a link.

use crate::text::{push_text, text};
use base64::Engine;
use vstd::prelude::*;
use vstd::string::StringSliceAdditionalSpecFns;

verus! {

/// How much of a QR picture may be lost and still be read.
#[derive(Clone, Copy, Debug, PartialEq, Eq, Structural)]
pub enum EccLevel {
    Low,
    Medium,
    Quartile,
    High,
}

/// Side length, in pixels, of the pictures made here.
pub const QR_SIZE: usize = 320;

/// The largest side length that a picture is asked for.
pub const MAX_QR_SIZE: usize = 4096;

/// The largest number of bytes that is put into a data address. It is far
/// below what the encoder can take, on machines of 32 bits too.
pub const MAX_EMBEDDED: usize = 0x2000_0000;

/// What `qrcode_generator::to_png_to_vec` returns for a text, a level and a
/// side length: the bytes of a PNG picture, or the text of its error.
pub uninterp spec fn qr_png_of(data: Seq<char>, ecc: EccLevel, size: usize) -> Result<
    Seq<u8>,
    Seq<char>,
>;

/// What `base64::engine::general_purpose::STANDARD.encode` returns for bytes.
pub uninterp spec fn base64_of(bytes: Seq<u8>) -> Seq<char>;

/// The bytes of a picture, or the text of an error, each by its view.
pub open spec fn png_view(r: Result<Vec<u8>, String>) -> Result<Seq<u8>, Seq<char>> {
    match r {
        Ok(v) => Ok(v@),
        Err(e) => Err(e@),
    }
}

/// Calls `qrcode_generator::to_png_to_vec` with the bytes of `data`. The
/// result is a function of the arguments alone, named [`qr_png_of`]; an error
/// of the crate is handed on as its text. The side length is kept within
/// `1..=MAX_QR_SIZE`, for which the crate allocates `size * size` bytes.
#[verifier::external_body]
pub(crate) fn qr_png(data: &str, ecc: EccLevel, size: usize) -> (r: Result<Vec<u8>, String>)
    requires
        0 < size <= MAX_QR_SIZE,
    ensures
        png_view(r) == qr_png_of(data@, ecc, size),
{
    let level = match ecc {
        EccLevel::Low => qrcode_generator::QrCodeEcc::Low,
        EccLevel::Medium => qrcode_generator::QrCodeEcc::Medium,
        EccLevel::Quartile => qrcode_generator::QrCodeEcc::Quartile,
        EccLevel::High => qrcode_generator::QrCodeEcc::High,
    };
    qrcode_generator::to_png_to_vec(data, level, size).map_err(|e| e.to_string())
}

/// Calls `encode` of `base64::engine::general_purpose::STANDARD`. The result
/// is a function of the bytes alone, named [`base64_of`]. The crate panics
/// where the encoded length does not fit a `usize`; the bound on the input
/// excludes that.
#[verifier::external_body]
pub(crate) fn base64_standard(bytes: &Vec<u8>) -> (r: String)
    requires
        bytes.len() <= MAX_EMBEDDED,
    ensures
        r@ == base64_of(bytes@),
{
    base64::engine::general_purpose::STANDARD.encode(bytes)
}

/// The character of the hexadecimal digit `d`, in upper case.
pub open spec fn hex_upper(d: int) -> char {
    if d == 0 {
        '0'
    } else if d == 1 {
        '1'
    } else if d == 2 {
        '2'
    } else if d == 3 {
        '3'
    } else if d == 4 {
        '4'
    } else if d == 5 {
        '5'
    } else if d == 6 {
        '6'
    } else if d == 7 {
        '7'
    } else if d == 8 {
        '8'
    } else if d == 9 {
        '9'
    } else if d == 10 {
        'A'
    } else if d == 11 {
        'B'
    } else if d == 12 {
        'C'
    } else if d == 13 {
        'D'
    } else if d == 14 {
        'E'
    } else {
        'F'
    }
}

/// Bytes that a form keeps as they are: `*`, `-`, `.`, `_`, the digits and
/// the letters of ASCII.
pub open spec fn kept_in_form(b: u8) -> bool {
    b == 0x2A || b == 0x2D || b == 0x2E || b == 0x5F || (0x30 <= b <= 0x39) || (0x41 <= b
        <= 0x5A) || (0x61 <= b <= 0x7A)
}

/// One byte as a form writes it: kept, `+` for a space, or `%` and two
/// hexadecimal digits in upper case.
pub open spec fn form_byte(b: u8) -> Seq<char> {
    if kept_in_form(b) {
        seq![b as char]
    } else if b == 0x20 {
        seq!['+']
    } else {
        seq!['%', hex_upper(b as int / 16), hex_upper(b as int % 16)]
    }
}

/// Bytes as a form writes them (`application/x-www-form-urlencoded`).
pub open spec fn form_bytes(bytes: Seq<u8>) -> Seq<char>
    decreases bytes.len(),
{
    if bytes.len() == 0 {
        Seq::empty()
    } else {
        form_bytes(bytes.drop_last()) + form_byte(bytes.last())
    }
}

/// Calls `form_urlencoded::byte_serialize` on the UTF-8 bytes of `s` and
/// joins the pieces: every byte as [`form_byte`] writes it, in order.
#[verifier::external_body]
pub(crate) fn byte_serialize(s: &str) -> (r: String)
    ensures
        r@ == form_bytes(s.spec_bytes()),
{
    form_urlencoded::byte_serialize(s.as_bytes()).collect()
}

/// Why a scan of a picture gave no text.
#[derive(Debug)]
pub enum DecodeError {
    /// No code was found in the picture.
    NotFound,
    /// The first code that was found could not be read; the text says why.
    Unreadable(String),
}

impl DecodeError {
    /// The sentence shown for the error.
    pub fn message(&self) -> (r: String)
        ensures
            r@ == match *self {
                DecodeError::NotFound => "没有识别到二维码"@,
                DecodeError::Unreadable(e) => "识别二维码失败: "@ + e@,
            },
    {
        match self {
            DecodeError::NotFound => text("没有识别到二维码"),
            DecodeError::Unreadable(e) => {
                let mut r = text("识别二维码失败: ");
                push_text(&mut r, e.as_str());
                r
            },
        }
    }
}

/// What [`decode_qr`] returns for the results of a scan, by views.
pub open spec fn spec_decode_qr(results: Seq<Result<String, String>>) -> Result<
    Seq<char>,
    DecodeErrorView,
> {
    if results.len() == 0 {
        Err(DecodeErrorView::NotFound)
    } else {
        match results[0] {
            Ok(t) => Ok(t@),
            Err(e) => Err(DecodeErrorView::Unreadable(e@)),
        }
    }
}

/// Mathematical value of a [`DecodeError`].
pub enum DecodeErrorView {
    NotFound,
    Unreadable(Seq<char>),
}

/// A decoded text or an error, each by its view.
pub open spec fn decoded_view(r: Result<String, DecodeError>) -> Result<Seq<char>, DecodeErrorView> {
    match r {
        Ok(s) => Ok(s@),
        Err(DecodeError::NotFound) => Err(DecodeErrorView::NotFound),
        Err(DecodeError::Unreadable(e)) => Err(DecodeErrorView::Unreadable(e@)),
    }
}

/// The text of a picture, given what a scan found in it, code by code: the
/// text of the first code. A scan that found nothing, and a first code that
/// could not be read, are errors, whatever was found after it.
pub fn decode_qr(results: Vec<Result<String, String>>) -> (r: Result<String, DecodeError>)
    ensures
        decoded_view(r) == spec_decode_qr(results@),
{
    if results.len() == 0 {
        return Err(DecodeError::NotFound);
    }
    match &results[0] {
        Ok(t) => Ok(t.clone()),
        Err(e) => Err(DecodeError::Unreadable(e.clone())),
    }
}

/// The QR picture of `d` as PNG bytes, [`QR_SIZE`] pixels wide, at the lowest
/// level of redundancy; the error text where `d` does not fit a code.
pub fn gen_qr(d: &str) -> (r: Result<Vec<u8>, String>)
    ensures
        png_view(r) == qr_png_of(d@, EccLevel::Low, QR_SIZE),
{
    qr_png(d, EccLevel::Low, QR_SIZE)
}

/// The data address of given PNG bytes.
pub open spec fn spec_data_uri(png: Seq<u8>) -> Seq<char> {
    "data:image/png;base64,"@ + base64_of(png)
}

/// The data address of PNG bytes: the fixed head followed by the bytes in
/// base64.
pub fn png_data_uri(png: &Vec<u8>) -> (r: String)
    requires
        png.len() <= MAX_EMBEDDED,
    ensures
        r@ == spec_data_uri(png@),
{
    let mut r = text("data:image/png;base64,");
    let b = base64_standard(png);
    push_text(&mut r, b.as_str());
    r
}

/// Why no data address could be made.
#[derive(Debug)]
pub enum QrError {
    /// The picture could not be made; the text says why.
    Picture(String),
    /// The picture has more than [`MAX_EMBEDDED`] bytes.
    TooLarge,
}

/// What [`gen_qr_data_uri`] returns, given what making the picture gave.
pub open spec fn data_uri_from(png: Result<Seq<u8>, Seq<char>>) -> Result<Seq<char>, QrErrorView> {
    match png {
        Ok(bytes) => if bytes.len() <= MAX_EMBEDDED {
            Ok(spec_data_uri(bytes))
        } else {
            Err(QrErrorView::TooLarge)
        },
        Err(e) => Err(QrErrorView::Picture(e)),
    }
}

/// Mathematical value of a [`QrError`].
pub enum QrErrorView {
    Picture(Seq<char>),
    TooLarge,
}

/// A data address or an error, each by its view.
pub open spec fn uri_view(r: Result<String, QrError>) -> Result<Seq<char>, QrErrorView> {
    match r {
        Ok(s) => Ok(s@),
        Err(QrError::Picture(e)) => Err(QrErrorView::Picture(e@)),
        Err(QrError::TooLarge) => Err(QrErrorView::TooLarge),
    }
}

/// The QR picture of `d` as a data address.
pub fn gen_qr_data_uri(d: &str) -> (r: Result<String, QrError>)
    ensures
        uri_view(r) == data_uri_from(qr_png_of(d@, EccLevel::Low, QR_SIZE)),
{
    match gen_qr(d) {
        Ok(png) => {
            if png.len() <= MAX_EMBEDDED {
                Ok(png_data_uri(&png))
            } else {
                Err(QrError::TooLarge)
            }
        },
        Err(e) => Err(QrError::Picture(e)),
    }
}

/// A ticket in the two forms a page needs: as part of a link, and as the
/// data address of its QR picture.
pub fn ticket_conv(s: &str) -> (r: Result<(String, String), QrError>)
    ensures
        match r {
            Ok(p) => p.0@ == form_bytes(s.spec_bytes()) && data_uri_from(
                qr_png_of(s@, EccLevel::Low, QR_SIZE),
            ) == Ok::<Seq<char>, QrErrorView>(p.1@),
            Err(e) => uri_view(Err::<String, QrError>(e)) == data_uri_from(
                qr_png_of(s@, EccLevel::Low, QR_SIZE),
            ),
        },
{
    match gen_qr_data_uri(s) {
        Ok(data_uri) => Ok((byte_serialize(s), data_uri)),
        Err(e) => Err(e),
    }
}

/// The ticket that a client opens: the caller's link with the login address
/// appended as a form writes it.
pub fn login_link(app_caller: &str, login_url: &str) -> (r: String)
    ensures
        r@ == app_caller@ + form_bytes(login_url.spec_bytes()),
{
    let mut r = text(app_caller);
    let enc = byte_serialize(login_url);
    push_text(&mut r, enc.as_str());
    r
}

} // verus!
