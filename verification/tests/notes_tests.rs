use copland::copland::Copland;
use copland::message::CoplandMsg;
use copland::notes::{
    content_element, create_request, delete_request, list_request, Method, NoteJson,
};
use copland::window::{WindowBody, WindowId, WindowPosition};

#[test]
fn list_request_reads_the_collection() {
    let request = list_request();
    assert_eq!(request.method, Method::Get);
    assert_eq!(request.url, "https://api.rovi.me/notes");
}

#[test]
fn create_request_carries_the_first_content_and_position() {
    let request = create_request();
    assert_eq!(request.method, Method::Post);
    assert_eq!(request.url, "https://api.rovi.me/notes/?content=new sticky&x=50&y=50");
}

#[test]
fn delete_request_names_the_note() {
    let request = delete_request(17);
    assert_eq!(request.method, Method::Delete);
    assert_eq!(request.url, "https://api.rovi.me/notes/17");
}

#[test]
fn update_request_carries_content_and_position() {
    let request = Copland::update_sticky_note(3, "hello", 10, 20);
    assert_eq!(request.method, Method::Patch);
    assert_eq!(request.url, "https://api.rovi.me/notes/3?content=hello&x=10&y=20");
}

#[test]
fn update_request_percent_encodes_the_content() {
    let request = Copland::update_sticky_note(3, "hello world!", 10, -5);
    assert_eq!(request.url, "https://api.rovi.me/notes/3?content=hello%20world%21&x=10&y=-5");
}

#[test]
fn update_request_keeps_unreserved_characters() {
    let request = Copland::update_sticky_note(0, "AZaz09-._~", 0, 0);
    assert_eq!(request.url, "https://api.rovi.me/notes/0?content=AZaz09-._~&x=0&y=0");
}

#[test]
fn update_request_encodes_reserved_and_control_characters() {
    let request = Copland::update_sticky_note(1, "a&b=c?d/e\n%", 1, 1);
    assert_eq!(
        request.url,
        "https://api.rovi.me/notes/1?content=a%26b%3Dc%3Fd%2Fe%0A%25&x=1&y=1"
    );
}

#[test]
fn update_request_encodes_each_byte_of_a_wide_character() {
    let request = Copland::update_sticky_note(1, "\u{e9}\u{1f47e}", 1, 1);
    assert_eq!(request.url, "https://api.rovi.me/notes/1?content=%C3%A9%F0%9F%91%BE&x=1&y=1");
}

#[test]
fn update_request_of_empty_content() {
    let request = Copland::update_sticky_note(9, "", -2147483648, 2147483647);
    assert_eq!(
        request.url,
        "https://api.rovi.me/notes/9?content=&x=-2147483648&y=2147483647"
    );
}

#[test]
fn content_element_is_named_after_the_note() {
    assert_eq!(content_element(5), "sticky-note-content-5");
    assert_eq!(content_element(120), "sticky-note-content-120");
}

#[test]
fn load_notes_opens_each_note_then_reconciles_then_focuses_home() {
    let notes = vec![
        NoteJson { id: 4, content: String::from("first"), created_at: 100, x: 10, y: 20 },
        NoteJson { id: 9, content: String::from("second"), created_at: 200, x: -1, y: 700 },
    ];
    let msgs = Copland::load_notes(&notes);
    assert_eq!(msgs.len(), 4);
    match &msgs[0] {
        CoplandMsg::OpenWindow(w) => {
            assert_eq!(w.id, WindowId::StickyNote(4));
            assert_eq!(w.left, WindowPosition::Close(10));
            assert_eq!(w.top, WindowPosition::Close(20));
            assert_eq!(w.title, "sticky note 4");
            match &w.body {
                WindowBody::StickyNote(props) => {
                    assert_eq!(props.id, 4);
                    assert_eq!(props.content, "first");
                    assert_eq!(props.created_at, 100);
                }
                _ => panic!("a sticky note window shows a sticky note"),
            }
        }
        _ => panic!("the first command opens the first note"),
    }
    match &msgs[1] {
        CoplandMsg::OpenWindow(w) => {
            assert_eq!(w.id, WindowId::StickyNote(9));
            assert_eq!(w.left, WindowPosition::Close(-1));
            assert_eq!(w.top, WindowPosition::Close(700));
        }
        _ => panic!("the second command opens the second note"),
    }
    assert!(matches!(msgs[2], CoplandMsg::ResizeBrowser));
    assert!(matches!(msgs[3], CoplandMsg::FocusWindow(WindowId::Home)));
}

#[test]
fn load_notes_of_an_empty_store() {
    let msgs = Copland::load_notes(&Vec::new());
    assert_eq!(msgs.len(), 2);
    assert!(matches!(msgs[0], CoplandMsg::ResizeBrowser));
    assert!(matches!(msgs[1], CoplandMsg::FocusWindow(WindowId::Home)));
}
