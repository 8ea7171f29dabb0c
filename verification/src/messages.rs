//! Requests to the remote chat-completion service: the role-tagged messages
//! that carry an image or a PDF as an inline data URI, and the payload
//! encoding behind them.

use vstd::prelude::*;
use vstd::string::*;
use crate::classify::{extension, extension_of, image_mime, lowercase, mime_type_for_image,
    to_lowercase};

verus! {

/// Who speaks in a message.
#[derive(Clone, Copy, Debug, PartialEq, Eq, Structural)]
pub enum Role {
    System,
    User,
}

/// One typed block of a structured message.
#[derive(Clone, Debug)]
pub enum ContentBlock {
    /// Plain instruction text.
    Text { text: String },
    /// An image, embedded as a data URI.
    ImageUrl { url: String },
    /// An attached file, embedded as a data URI under its name.
    File { filename: String, file_data: String },
}

/// What a message says: a plain string, or a sequence of typed blocks.
#[derive(Clone, Debug)]
pub enum MessageContent {
    Plain(String),
    Blocks(Vec<ContentBlock>),
}

/// One message of a conversation.
#[derive(Clone, Debug)]
pub struct ChatMessage {
    pub role: Role,
    pub content: MessageContent,
}

/// The instruction that accompanies an image.
pub const IMAGE_INSTRUCTION: &'static str =
    "Проанализируй это изображение. \
Извлеки ВЕСЬ текст, который есть на изображении, сохраняя структуру и форматирование. \
Если на изображении есть графики, диаграммы, таблицы или другие визуальные элементы — \
опиши их содержимое и данные подробно. \
Отвечай на русском языке.";

/// The instruction that accompanies a PDF document.
pub const PDF_INSTRUCTION: &'static str =
    "Извлеки ВЕСЬ текст из этого PDF документа, сохраняя структуру и форматирование. \
Если в документе есть графики, диаграммы, таблицы или изображения — \
опиши их содержимое подробно. \
Отвечай на русском языке.";

/// The extension assumed for a file whose name has none.
pub const FALLBACK_EXTENSION: &'static str = "bin";

/// The standard, padded base64 text of a byte string, as the `base64`
/// crate's `STANDARD` engine produces it.
pub uninterp spec fn base64_standard(bytes: Seq<u8>) -> Seq<char>;

/// Whether the padded base64 text of `len` bytes, four characters for
/// every three bytes begun, has a length that fits in `usize`.
pub open spec fn encodable(len: nat) -> bool {
    4 * ((len + 2) / 3) <= usize::MAX
}

/// Tells whether a payload of `len` bytes can be encoded.
pub fn can_encode(len: usize) -> (fits: bool)
    ensures
        fits == encodable(len as nat),
{
    len / 3 + (if len % 3 == 0 {
        0usize
    } else {
        1usize
    }) <= usize::MAX / 4
}

/// Calls `Engine::encode` on `base64::engine::general_purpose::STANDARD`.
/// The encoder panics where the encoded length overflows `usize`, so such
/// inputs are excluded; the text it returns depends on the bytes alone and
/// is only given the name [`base64_standard`].
#[verifier::external_body]
fn encode_base64(bytes: &[u8]) -> (text: String)
    requires
        encodable(bytes@.len()),
    ensures
        text@ == base64_standard(bytes@),
{
    base64::Engine::encode(&base64::engine::general_purpose::STANDARD, bytes)
}

/// The lower-case extension under which a file's payload is announced.
pub open spec fn payload_extension(name: Seq<char>) -> Seq<char> {
    match extension(name) {
        Some(ext) => lowercase(ext),
        None => lowercase(FALLBACK_EXTENSION@),
    }
}

/// Base64-encodes a file's bytes and determines its lower-case extension.
pub fn encode_with_extension(bytes: &[u8], name: &str) -> (encoded: (String, String))
    requires
        encodable(bytes@.len()),
    ensures
        encoded.0@ == base64_standard(bytes@),
        encoded.1@ == payload_extension(name@),
{
    let ext = match extension_of(name) {
        Some(found) => to_lowercase(found),
        None => to_lowercase(FALLBACK_EXTENSION),
    };
    (encode_base64(bytes), ext)
}

/// The data URI of an image payload.
pub open spec fn image_data_url(mime: Seq<char>, payload: Seq<char>) -> Seq<char> {
    "data:"@ + mime + ";base64,"@ + payload
}

/// The data URI of a PDF payload.
pub open spec fn pdf_data_url(payload: Seq<char>) -> Seq<char> {
    "data:application/pdf;base64,"@ + payload
}

/// Builds the data URI that embeds an image payload under its MIME type.
pub fn make_image_data_url(mime: &str, payload: &str) -> (url: String)
    ensures
        url@ == image_data_url(mime@, payload@),
{
    let mut url = String::from_str("data:");
    url.append(mime);
    url.append(";base64,");
    url.append(payload);
    url
}

/// Builds the data URI that embeds a PDF payload.
pub fn make_pdf_data_url(payload: &str) -> (url: String)
    ensures
        url@ == pdf_data_url(payload@),
{
    let mut url = String::from_str("data:application/pdf;base64,");
    url.append(payload);
    url
}

/// A single user message made of an instruction and an inline image.
pub open spec fn is_image_request(messages: Seq<ChatMessage>, data_url: Seq<char>) -> bool {
    &&& messages.len() == 1
    &&& messages[0].role == Role::User
    &&& messages[0].content matches MessageContent::Blocks(blocks)
    &&& blocks@.len() == 2
    &&& blocks@[0] matches ContentBlock::Text { text }
    &&& text@ == IMAGE_INSTRUCTION@
    &&& blocks@[1] matches ContentBlock::ImageUrl { url }
    &&& url@ == data_url
}

/// A single user message made of an instruction and an attached PDF.
pub open spec fn is_pdf_request(
    messages: Seq<ChatMessage>,
    name: Seq<char>,
    data_url: Seq<char>,
) -> bool {
    &&& messages.len() == 1
    &&& messages[0].role == Role::User
    &&& messages[0].content matches MessageContent::Blocks(blocks)
    &&& blocks@.len() == 2
    &&& blocks@[0] matches ContentBlock::Text { text }
    &&& text@ == PDF_INSTRUCTION@
    &&& blocks@[1] matches ContentBlock::File { filename, file_data }
    &&& filename@ == name
    &&& file_data@ == data_url
}

/// Builds the messages payload for image text extraction.
pub fn build_image_messages(data_url: &str) -> (messages: Vec<ChatMessage>)
    ensures
        is_image_request(messages@, data_url@),
{
    let blocks = vec![
        ContentBlock::Text { text: String::from_str(IMAGE_INSTRUCTION) },
        ContentBlock::ImageUrl { url: String::from_str(data_url) },
    ];
    vec![ChatMessage { role: Role::User, content: MessageContent::Blocks(blocks) }]
}

/// Builds the messages payload for PDF text extraction.
pub fn build_pdf_messages(filename: &str, data_url: &str) -> (messages: Vec<ChatMessage>)
    ensures
        is_pdf_request(messages@, filename@, data_url@),
{
    let blocks = vec![
        ContentBlock::Text { text: String::from_str(PDF_INSTRUCTION) },
        ContentBlock::File {
            filename: String::from_str(filename),
            file_data: String::from_str(data_url),
        },
    ];
    vec![ChatMessage { role: Role::User, content: MessageContent::Blocks(blocks) }]
}

/// The extraction request for an image file: its bytes, base64-encoded,
/// under the MIME type of its extension.
pub fn image_request(bytes: &[u8], name: &str) -> (messages: Vec<ChatMessage>)
    requires
        encodable(bytes@.len()),
    ensures
        is_image_request(
            messages@,
            image_data_url(image_mime(payload_extension(name@)), base64_standard(bytes@)),
        ),
{
    let (payload, ext) = encode_with_extension(bytes, name);
    let mime = mime_type_for_image(ext.as_str());
    let data_url = make_image_data_url(mime, payload.as_str());
    build_image_messages(data_url.as_str())
}

/// The extraction request for a PDF file: its bytes, base64-encoded, under
/// its file name.
pub fn pdf_request(bytes: &[u8], name: &str) -> (messages: Vec<ChatMessage>)
    requires
        encodable(bytes@.len()),
    ensures
        is_pdf_request(messages@, name@, pdf_data_url(base64_standard(bytes@))),
{
    let (payload, _ext) = encode_with_extension(bytes, name);
    let data_url = make_pdf_data_url(payload.as_str());
    build_pdf_messages(name, data_url.as_str())
}

} // verus!
