use std::sync::{Arc, Mutex as StdMutex};

use pookie_paste::clipboard_state::{
    ClipboardBackend, ClipboardContent, ClipboardError, ClipboardService, ClipboardState,
};

#[test]
fn matching_text_write_is_suppressed_once() {
    let mut state = ClipboardState::default();

    let content = ClipboardContent::Text("hello".to_string());

    state.mark_written(&content);

    assert!(state.is_self_write(&content,));

    assert!(!state.is_self_write(&content,));
}

#[test]
fn matching_image_write_is_suppressed_once() {
    let mut state = ClipboardState::default();

    let content = ClipboardContent::Image(vec![1, 2, 3, 4]);

    state.mark_written(&content);

    assert!(state.is_self_write(&content,));

    assert!(!state.is_self_write(&content,));
}

#[test]
fn different_text_is_not_suppressed() {
    let mut state = ClipboardState::default();

    state.mark_written(&ClipboardContent::Text("first".to_string()));

    assert!(!state.is_self_write(&ClipboardContent::Text("second".to_string(),),));
}

#[test]
fn different_image_is_not_suppressed() {
    let mut state = ClipboardState::default();

    state.mark_written(&ClipboardContent::Image(vec![1, 2, 3]));

    assert!(!state.is_self_write(&ClipboardContent::Image(vec![4, 5, 6],),));
}

#[test]
fn non_matching_event_does_not_consume_marker() {
    let mut state = ClipboardState::default();

    let written = ClipboardContent::Text("pookie".to_string());

    state.mark_written(&written);

    assert!(!state.is_self_write(&ClipboardContent::Text("different".to_string(),),));

    assert!(state.is_self_write(&written,));
}

#[test]
fn text_and_image_are_distinct_even_if_bytes_hash_differently() {
    let mut state = ClipboardState::default();

    let text = ClipboardContent::Text("abc".to_string());

    let image = ClipboardContent::Image(b"abc".to_vec());

    state.mark_written(&text);

    assert!(!state.is_self_write(&image,));

    assert!(state.is_self_write(&text,));
}

#[test]
fn new_write_replaces_previous_pending_marker() {
    let mut state = ClipboardState::default();

    let first = ClipboardContent::Text("first".to_string());

    let second = ClipboardContent::Image(vec![1, 2, 3]);

    state.mark_written(&first);

    state.mark_written(&second);

    assert!(!state.is_self_write(&first,));

    assert!(state.is_self_write(&second,));
}

#[test]
fn empty_state_matches_nothing() {
    let mut state = ClipboardState::new();
    assert!(!state.is_self_write(&ClipboardContent::Text(String::new())));
}

#[derive(Clone)]
struct FakeClipboardBackend {
    content: Arc<StdMutex<ClipboardContent>>,

    fail_writes: Arc<StdMutex<bool>>,
}

impl FakeClipboardBackend {
    fn new(initial: ClipboardContent) -> Self {
        Self {
            content: Arc::new(StdMutex::new(initial)),

            fail_writes: Arc::new(StdMutex::new(false)),
        }
    }

    fn text(initial: &str) -> Self {
        Self::new(ClipboardContent::Text(initial.to_string()))
    }

    fn content(&self) -> ClipboardContent {
        self.content
            .lock()
            .expect("fake clipboard mutex poisoned")
            .clone()
    }

    fn set_fail_writes(&self, fail: bool) {
        *self
            .fail_writes
            .lock()
            .expect("fake clipboard mutex poisoned") = fail;
    }
}

impl ClipboardBackend for FakeClipboardBackend {
    fn read_content(&self) -> Result<ClipboardContent, ClipboardError> {
        Ok(self.content())
    }

    fn write_content(&self, content: &ClipboardContent) -> Result<(), ClipboardError> {
        if *self
            .fail_writes
            .lock()
            .expect("fake clipboard mutex poisoned")
        {
            return Err(ClipboardError::WriteFailed(
                "simulated write failure".to_string(),
            ));
        }

        *self.content.lock().expect("fake clipboard mutex poisoned") = content.clone();

        Ok(())
    }
}

fn create_service(backend: FakeClipboardBackend) -> ClipboardService<FakeClipboardBackend> {
    ClipboardService::new(backend, ClipboardState::default())
}

#[test]
fn read_returns_current_text_clipboard_content() {
    let backend = FakeClipboardBackend::text("hello");

    let service = create_service(backend);

    let content = service.read().expect("clipboard read failed");

    assert_eq!(content, ClipboardContent::Text("hello".to_string(),),);
}

#[test]
fn read_returns_current_image_clipboard_content() {
    let image = vec![1, 2, 3, 4];

    let backend = FakeClipboardBackend::new(ClipboardContent::Image(image.clone()));

    let service = create_service(backend);

    let content = service.read().expect("clipboard read failed");

    assert_eq!(content, ClipboardContent::Image(image,),);
}

#[test]
fn write_text_updates_clipboard_content() {
    let backend = FakeClipboardBackend::text("");

    let backend_handle = backend.clone();

    let mut service = create_service(backend);

    service
        .write(ClipboardContent::Text("hello".to_string()))
        .expect("clipboard write failed");

    assert_eq!(
        backend_handle.content(),
        ClipboardContent::Text("hello".to_string(),),
    );
}

#[test]
fn write_owned_text_updates_clipboard_content() {
    let backend = FakeClipboardBackend::text("");

    let backend_handle = backend.clone();

    let mut service = create_service(backend);

    service
        .write(ClipboardContent::Text(String::from("owned text")))
        .expect("clipboard write failed");

    assert_eq!(
        backend_handle.content(),
        ClipboardContent::Text("owned text".to_string(),),
    );
}

#[test]
fn write_image_updates_clipboard_content() {
    let backend = FakeClipboardBackend::text("");

    let backend_handle = backend.clone();

    let mut service = create_service(backend);

    let image = vec![1, 2, 3, 4];

    service
        .write(ClipboardContent::Image(image.clone()))
        .expect("clipboard image write failed");

    assert_eq!(backend_handle.content(), ClipboardContent::Image(image,),);
}

#[test]
fn successful_text_write_marks_self_generated_content() {
    let backend = FakeClipboardBackend::text("");

    let mut service = ClipboardService::new(backend, ClipboardState::default());

    let content = ClipboardContent::Text("pookie-write".to_string());

    service
        .write(content.clone())
        .expect("clipboard write failed");

    assert!(service.is_self_write(&content,));
}

#[test]
fn successful_image_write_marks_self_generated_content() {
    let backend = FakeClipboardBackend::text("");

    let mut service = ClipboardService::new(backend, ClipboardState::default());

    let content = ClipboardContent::Image(vec![1, 2, 3, 4]);

    service
        .write(content.clone())
        .expect("clipboard image write failed");

    assert!(service.is_self_write(&content,));
}

#[test]
fn failed_write_does_not_mark_self_generated_content() {
    let backend = FakeClipboardBackend::text("");

    backend.set_fail_writes(true);

    let mut service = ClipboardService::new(backend, ClipboardState::default());

    let content = ClipboardContent::Image(vec![9, 8, 7]);

    assert!(service.write(content.clone(),).is_err());

    assert!(!service.is_self_write(&content,));
}
