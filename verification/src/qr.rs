//! QR codes of receipt links, embedded in receipts as PNG data URLs.

use vstd::prelude::*;
use vstd::string::StringExecFns;
use vstd::utf8::encode_utf8;
use crate::errors::{DocumentServiceError, DocumentServiceResult};
use qrcode_generator::{QRCodeError as E, QrCodeEcc as L};

verus! {

/// How much of a QR code may be damaged and still be read.
#[derive(Debug, PartialEq, Eq, Structural, Clone, Copy)]
pub enum QrEccLevel {
    Low,
    Medium,
    Quartile,
    High,
}

/// Why a QR code image could not be made.
#[derive(Debug, PartialEq, Eq, Structural, Clone, Copy)]
pub enum QrCodeFailure {
    /// The content does not fit in any QR code at the chosen level.
    DataTooLong,
    /// Writing the image failed.
    Io,
    /// Encoding the image failed.
    Image,
    /// The image is too small for the code.
    ImageSizeTooSmall,
    /// The image is too large to be made.
    ImageSizeTooLarge,
}

/// What `qrcode_generator::to_png_to_vec` gives for `content` at `level` and
/// `size` pixels: the PNG image, or the failure. It depends on its arguments
/// alone.
pub uninterp spec fn qr_png_image(content: Seq<char>, level: QrEccLevel, size: nat) -> Result<
    Seq<u8>,
    QrCodeFailure,
>;

/// `qrcode_generator::to_png_to_vec`: the PNG image of the QR code of
/// `content`, with the error correction `level`, `size` pixels wide, or the
/// reason none can be made, one variant of ours for each of its errors. What
/// it returns is named, not described. It succeeds when the content's UTF-8
/// bytes fit a version-40 code at `level` (qrcodegen tries every version, and
/// byte mode is its least compact mode) and the image is at least 179 pixels
/// wide (a version-40 code with its margin is 179 modules) and below 65536
/// (its too-large bound on 32-bit targets); the PNG is then written into a
/// `Vec`, which cannot fail.
/// How many bytes of content the largest QR code (version 40) holds at
/// `level` in byte mode, the least compact of the modes it may choose.
pub open spec fn qr_byte_capacity(level: QrEccLevel) -> nat {
    match level {
        QrEccLevel::Low => 2953,
        QrEccLevel::Medium => 2331,
        QrEccLevel::Quartile => 1663,
        QrEccLevel::High => 1273,
    }
}

#[verifier::external_body]
fn qr_png(content: &str, level: QrEccLevel, size: usize) -> (png: Result<Vec<u8>, QrCodeFailure>)
    ensures
        (179 <= size < 65536 && encode_utf8(content@).len() <= qr_byte_capacity(level)) ==> png is Ok,
        match png {
            Ok(bytes) => qr_png_image(content@, level, size as nat) == Ok::<Seq<u8>, QrCodeFailure>(bytes@),
            Err(e) => qr_png_image(content@, level, size as nat) == Err::<Seq<u8>, QrCodeFailure>(e),
        },
{
    let ecc = match level { QrEccLevel::Low => L::Low, QrEccLevel::Medium => L::Medium, QrEccLevel::Quartile => L::Quartile, QrEccLevel::High => L::High };
    match qrcode_generator::to_png_to_vec(content, ecc, size) {
        Ok(bytes) => Ok(bytes),
        Err(E::DataTooLong) => Err(QrCodeFailure::DataTooLong),
        Err(E::IOError(_)) => Err(QrCodeFailure::Io),
        Err(E::ImageError(_)) => Err(QrCodeFailure::Image),
        Err(E::ImageSizeTooSmall) => Err(QrCodeFailure::ImageSizeTooSmall),
        Err(E::ImageSizeTooLarge) => Err(QrCodeFailure::ImageSizeTooLarge),
    }
}

/// The standard base64 character of a 6-bit value: `A`-`Z`, `a`-`z`, `0`-`9`,
/// `+`, `/`.
pub open spec fn base64_char(v: int) -> char {
    if v < 26 {
        (65 + v) as char
    } else if v < 52 {
        (97 + v - 26) as char
    } else if v < 62 {
        (48 + v - 52) as char
    } else if v == 62 {
        '+'
    } else {
        '/'
    }
}

/// The standard base64 text of some bytes, without `=` padding: four
/// characters for each three bytes, and two or three for one or two bytes left
/// at the end, whose unused low bits are zero.
pub open spec fn base64_no_pad(bytes: Seq<u8>) -> Seq<char>
    decreases bytes.len(),
{
    if bytes.len() == 0 {
        Seq::empty()
    } else if bytes.len() == 1 {
        seq![base64_char((bytes[0] as int) / 4), base64_char(((bytes[0] as int) % 4) * 16)]
    } else if bytes.len() == 2 {
        seq![
            base64_char((bytes[0] as int) / 4),
            base64_char(((bytes[0] as int) % 4) * 16 + (bytes[1] as int) / 16),
            base64_char(((bytes[1] as int) % 16) * 4),
        ]
    } else {
        seq![
            base64_char((bytes[0] as int) / 4),
            base64_char(((bytes[0] as int) % 4) * 16 + (bytes[1] as int) / 16),
            base64_char(((bytes[1] as int) % 16) * 4 + (bytes[2] as int) / 64),
            base64_char((bytes[2] as int) % 64),
        ] + base64_no_pad(bytes.subrange(3, bytes.len() as int))
    }
}

/// Unpadded base64 takes four characters for every three bytes, rounded up:
/// `ceil(4n / 3)` characters for `n` bytes, every one from the standard
/// alphabet.
pub proof fn lemma_base64_no_pad_shape(bytes: Seq<u8>)
    ensures
        base64_no_pad(bytes).len() == (4 * bytes.len() + 2) / 3,
        forall|i: int| 0 <= i < base64_no_pad(bytes).len() ==> {
            let c = #[trigger] base64_no_pad(bytes)[i];
            ||| ('A' <= c && c <= 'Z')
            ||| ('a' <= c && c <= 'z')
            ||| ('0' <= c && c <= '9')
            ||| c == '+'
            ||| c == '/'
        },
    decreases bytes.len(),
{
    if bytes.len() >= 3 {
        let rest = bytes.subrange(3, bytes.len() as int);
        lemma_base64_no_pad_shape(rest);
        let text = base64_no_pad(bytes);
        assert forall|i: int| 0 <= i < text.len() implies {
            let c = #[trigger] text[i];
            ||| ('A' <= c && c <= 'Z')
            ||| ('a' <= c && c <= 'z')
            ||| ('0' <= c && c <= '9')
            ||| c == '+'
            ||| c == '/'
        } by {
            if i >= 4 {
                assert(text[i] == base64_no_pad(rest)[i - 4]);
            }
        }
    }
}

/// `base64`'s `STANDARD_NO_PAD` engine's `encode`: the standard base64 text of
/// `bytes`, without padding.
#[verifier::external_body]
fn encode_base64_no_pad(bytes: &[u8]) -> (text: String)
    ensures
        text@ == base64_no_pad(bytes@),
{
    base64::Engine::encode(&base64::engine::general_purpose::STANDARD_NO_PAD, bytes)
}

/// The side of the PNG image of a receipt's QR code, in pixels.
pub const QR_IMAGE_SIZE: usize = 1024;

/// The text that starts a PNG data URL.
pub open spec fn png_data_url_prefix() -> Seq<char> {
    "data:image/png;base64,"@
}

/// The PNG data URL of the QR code of `content`, as receipts embed it: always
/// at the high error correction level and 1024 pixels wide. Content too long
/// for a QR code gives `SegmentTooLong`; an image that cannot be drawn gives
/// `IntegerOverflow`.
pub open spec fn qr_data_url(content: Seq<char>) -> Result<Seq<char>, DocumentServiceError> {
    match qr_png_image(content, QrEccLevel::High, QR_IMAGE_SIZE as nat) {
        Ok(png) => Ok(png_data_url_prefix() + base64_no_pad(png)),
        Err(QrCodeFailure::DataTooLong) => Err(DocumentServiceError::SegmentTooLong),
        Err(_) => Err(DocumentServiceError::IntegerOverflow),
    }
}

/// The content placed in a generator before any is given.
pub open spec fn uninitialized_qr_content() -> Seq<char> {
    "[UNINITIALIZED_CONTENT_FOR_QR_CODE]"@
}

/// Settings of a QR code image.
#[derive(Debug)]
pub struct QrGenerator<'qr> {
    content: &'qr str,
    error_correction_level: QrEccLevel,
    border: i32,
}

impl<'qr> QrGenerator<'qr> {
    /// The text that the code holds.
    pub closed spec fn content_view(&self) -> Seq<char> {
        self.content@
    }

    /// The error correction level that was asked for.
    pub closed spec fn level_view(&self) -> QrEccLevel {
        self.error_correction_level
    }

    /// The border that was asked for.
    pub closed spec fn border_view(&self) -> i32 {
        self.border
    }

    /// A generator holding a placeholder text, at the high error correction
    /// level, with no border.
    pub fn new() -> (generator: Self)
        ensures
            generator.content_view() == uninitialized_qr_content(),
            generator.level_view() == QrEccLevel::High,
            generator.border_view() == 0,
    {
        QrGenerator {
            content: "[UNINITIALIZED_CONTENT_FOR_QR_CODE]",
            error_correction_level: QrEccLevel::High,
            border: 0,
        }
    }

    /// Sets the text that the code holds.
    pub fn add_content(&mut self, content: &'qr str) -> (generator: &mut Self)
        ensures
            *final(self) == *final(generator),
            generator.content_view() == content@,
            generator.level_view() == old(self).level_view(),
            generator.border_view() == old(self).border_view(),
    {
        self.content = content;
        self
    }

    /// Sets the error correction level.
    pub fn change_error_correction_level(&mut self, level: QrEccLevel) -> (generator: &mut Self)
        ensures
            *final(self) == *final(generator),
            generator.content_view() == old(self).content_view(),
            generator.level_view() == level,
            generator.border_view() == old(self).border_view(),
    {
        self.error_correction_level = level;
        self
    }

    /// Sets the border; a border above `i32::MAX` wraps around.
    pub fn add_border(&mut self, border: u32) -> (generator: &mut Self)
        ensures
            *final(self) == *final(generator),
            generator.content_view() == old(self).content_view(),
            generator.level_view() == old(self).level_view(),
            generator.border_view() == border as i32,
    {
        self.border = border as i32;
        self
    }

    /// The PNG data URL of the QR code of the content. The image is always
    /// made at the high error correction level, 1024 pixels wide, whatever
    /// level and border were set. Content too long for a QR code gives
    /// `SegmentTooLong`; an image that cannot be drawn gives `IntegerOverflow`.
    pub fn build_qr_png(&self) -> (url: DocumentServiceResult<String>)
        ensures
            encode_utf8(self.content_view()).len() <= qr_byte_capacity(QrEccLevel::High) ==> url is Ok,
            url matches Ok(u) ==> (qr_png_image(self.content_view(), QrEccLevel::High, 1024) matches Ok(
                png,
            ) && u@ == "data:image/png;base64,"@ + base64_no_pad(png)),
            url is Err ==> qr_png_image(self.content_view(), QrEccLevel::High, 1024) is Err,
            match url {
                Ok(u) => qr_data_url(self.content_view()) == Ok::<Seq<char>, DocumentServiceError>(u@),
                Err(e) => qr_data_url(self.content_view()) == Err::<Seq<char>, DocumentServiceError>(e),
            },
    {
        match qr_png(self.content, QrEccLevel::High, QR_IMAGE_SIZE) {
            Ok(png) => {
                let mut base64_img = "data:image/png;base64,".to_owned();
                let encoded = encode_base64_no_pad(png.as_slice());
                base64_img.append(encoded.as_str());
                Ok(base64_img)
            },
            Err(QrCodeFailure::DataTooLong) => Err(DocumentServiceError::SegmentTooLong),
            Err(_) => Err(DocumentServiceError::IntegerOverflow),
        }
    }
}

/// The data URL is the PNG of the QR code of exactly `content`, at the high
/// level and 1024 pixels wide, in base64 after the PNG data URL prefix; it
/// fails exactly when that image cannot be made.
pub proof fn lemma_qr_data_url_is_code_of_content(content: Seq<char>)
    ensures
        qr_png_image(content, QrEccLevel::High, 1024) matches Ok(png) ==> qr_data_url(content)
            == Ok::<Seq<char>, DocumentServiceError>("data:image/png;base64,"@ + base64_no_pad(png)),
        qr_png_image(content, QrEccLevel::High, 1024) is Err <==> qr_data_url(content) is Err,
{
}

/// The image depends on the content alone: two generators with the same
/// content give the same data URL, whatever level and border they were given.
pub proof fn lemma_qr_ignores_settings(a: QrGenerator, b: QrGenerator)
    requires
        a.content_view() == b.content_view(),
    ensures
        qr_data_url(a.content_view()) == qr_data_url(b.content_view()),
{
}

} // verus!
