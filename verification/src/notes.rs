//! Sticky notes and the requests that keep them in the remote store.

use crate::copland::Copland;
use crate::message::CoplandMsg;
use crate::text::{decimal, digit_char, push_decimal, push_signed_decimal, signed_decimal};
use crate::window::{StickyNoteProps, Window, WindowBody, WindowClose, WindowId, WindowPosition};
use vstd::prelude::*;
use vstd::string::*;

verus! {

/// A sticky note as the store hands it out.
#[derive(Debug, Clone)]
pub struct NoteJson {
    pub id: u32,
    pub content: String,
    pub created_at: u64,
    pub x: i32,
    pub y: i32,
}

/// The verb of a request to the store.
#[derive(Debug, PartialEq, Eq, Clone, Copy, Structural)]
pub enum Method {
    Get,
    Post,
    Patch,
    Delete,
}

/// A request to the store. Nothing waits for its answer.
#[derive(Debug)]
pub struct Request {
    pub method: Method,
    pub url: String,
}

/// Whether a byte stands for itself in a percent-encoded string: the ASCII
/// letters and digits, and `-`, `.`, `_` and `~`.
pub open spec fn unreserved(byte: u8) -> bool {
    ||| 0x30 <= byte <= 0x39
    ||| 0x41 <= byte <= 0x5a
    ||| 0x61 <= byte <= 0x7a
    ||| byte == 0x2d
    ||| byte == 0x2e
    ||| byte == 0x5f
    ||| byte == 0x7e
}

/// The upper-case hexadecimal digit for `d`, for `0 <= d <= 15`.
pub open spec fn hex_digit(d: int) -> char {
    if d < 10 {
        digit_char(d)
    } else if d == 10 {
        'A'
    } else if d == 11 {
        'B'
    } else if d == 12 {
        'C'
    } else if d == 13 {
        'D'
    } else if d == 14 {
        'E'
    } else {
        'F'
    }
}

/// One byte in percent-encoding: itself if it is unreserved, else a percent
/// sign and its two hexadecimal digits.
pub open spec fn escaped(byte: u8) -> Seq<char> {
    if unreserved(byte) {
        seq![byte as char]
    } else {
        seq!['%', hex_digit(byte as int / 16), hex_digit(byte as int % 16)]
    }
}

/// A sequence of bytes in percent-encoding.
pub open spec fn percent_encoded(bytes: Seq<u8>) -> Seq<char>
    decreases bytes.len(),
{
    if bytes.len() == 0 {
        Seq::empty()
    } else {
        percent_encoded(bytes.drop_last()) + escaped(bytes.last())
    }
}

/// The percent-encoding of a string. Calls `urlencoding::encode`, which
/// walks the UTF-8 bytes of its argument in order, copies each letter, digit
/// and `-`, `.`, `_`, `~`, and writes every other byte as `%` and two
/// upper-case hexadecimal digits.
#[verifier::external_body]
fn encode(data: &str) -> (encoded: String)
    ensures
        encoded@ == percent_encoded(data.spec_bytes()),
{
    urlencoding::encode(data).into_owned()
}

/// The address of the collection of notes.
pub open spec fn notes_url() -> Seq<char> {
    "https://api.rovi.me/notes"@
}

/// The address of the note `id`.
pub open spec fn note_url(id: usize) -> Seq<char> {
    "https://api.rovi.me/notes/"@ + decimal(id as nat)
}

/// The address, with its query, that stores the content and position of the
/// note `id`.
pub open spec fn update_url(id: usize, content: Seq<char>, x: i32, y: i32) -> Seq<char> {
    note_url(id) + "?content="@ + percent_encoded(vstd::utf8::encode_utf8(content)) + "&x="@
        + signed_decimal(x as int) + "&y="@ + signed_decimal(y as int)
}

/// The identifier of the text area that holds the content of the note `id`.
pub open spec fn content_element_id(id: usize) -> Seq<char> {
    "sticky-note-content-"@ + decimal(id as nat)
}

/// The identifier of the text area that holds the content of the note `id`.
pub fn content_element(id: usize) -> (key: String)
    ensures
        key@ == content_element_id(id),
{
    let mut key = String::from_str("sticky-note-content-");
    push_decimal(&mut key, id as u64);
    key
}

/// The request that lists the notes in the store.
pub fn list_request() -> (request: Request)
    ensures
        request.method == Method::Get,
        request.url@ == notes_url(),
{
    Request { method: Method::Get, url: String::from_str("https://api.rovi.me/notes") }
}

/// The request that makes a new note, with its first content and position.
pub fn create_request() -> (request: Request)
    ensures
        request.method == Method::Post,
        request.url@ == "https://api.rovi.me/notes/?content=new sticky&x=50&y=50"@,
{
    Request {
        method: Method::Post,
        url: String::from_str("https://api.rovi.me/notes/?content=new sticky&x=50&y=50"),
    }
}

/// The request that deletes the note `id`.
pub fn delete_request(id: usize) -> (request: Request)
    ensures
        request.method == Method::Delete,
        request.url@ == note_url(id),
{
    let mut url = String::from_str("https://api.rovi.me/notes/");
    push_decimal(&mut url, id as u64);
    Request { method: Method::Delete, url }
}

/// Whether `msg` opens the window of the sticky note `note`.
pub open spec fn opens_note(msg: CoplandMsg, note: NoteJson) -> bool {
    &&& msg matches CoplandMsg::OpenWindow(window)
    &&& window.describes(
        WindowId::StickyNote(note.id as usize),
        WindowClose::Close,
        WindowPosition::Close(note.y),
        WindowPosition::Close(note.x),
        200,
        None,
        "assets/icons/template_empty-5.png"@,
        "sticky note "@ + decimal(note.id as nat),
    )
    &&& window.body == WindowBody::StickyNote(
        StickyNoteProps { id: note.id, content: note.content, created_at: note.created_at },
    )
}

impl Copland {
    /// The request that stores the content of the sticky note `id` and the
    /// position `(x, y)` at which its window is drawn.
    pub fn update_sticky_note(id: usize, content: &str, x: i32, y: i32) -> (request: Request)
        ensures
            request.method == Method::Patch,
            request.url@ == update_url(id, content@, x, y),
    {
        let mut url = String::from_str("https://api.rovi.me/notes/");
        push_decimal(&mut url, id as u64);
        url.append("?content=");
        let encoded = encode(content);
        url.append(encoded.as_str());
        url.append("&x=");
        push_signed_decimal(&mut url, x as i64);
        url.append("&y=");
        push_signed_decimal(&mut url, y as i64);
        Request { method: Method::Patch, url }
    }

    /// The commands that bring the stored notes onto a fresh desktop: one
    /// that opens the window of each note, in the order of the store, then
    /// one that reconciles the windows with the viewport, then one that
    /// gives the focus back to the home window.
    pub fn load_notes(notes: &Vec<NoteJson>) -> (msgs: Vec<CoplandMsg>)
        ensures
            msgs@.len() == notes@.len() + 2,
            forall|i: int| 0 <= i < notes@.len() ==> opens_note(#[trigger] msgs@[i], notes@[i]),
            msgs@[notes@.len() as int] == CoplandMsg::ResizeBrowser,
            msgs@[notes@.len() as int + 1] == CoplandMsg::FocusWindow(WindowId::Home),
    {
        let mut msgs: Vec<CoplandMsg> = Vec::new();
        let mut i: usize = 0;
        while i < notes.len()
            invariant
                i <= notes@.len(),
                msgs@.len() == i,
                forall|j: int| 0 <= j < i ==> opens_note(#[trigger] msgs@[j], notes@[j]),
            decreases notes@.len() - i,
        {
            let note = &notes[i];
            let window = Window::sticky_note(
                note.id,
                note.content.clone(),
                note.created_at,
                note.x,
                note.y,
            );
            msgs.push(CoplandMsg::OpenWindow(window));
            i += 1;
        }
        msgs.push(CoplandMsg::ResizeBrowser);
        msgs.push(CoplandMsg::FocusWindow(WindowId::Home));
        msgs
    }
}

} // verus!
