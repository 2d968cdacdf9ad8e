use std::cell::Cell;
use std::fmt;
use std::rc::Rc;
use tagged_error::{Error, NoSendSync, NoSync, OptSend, OptSync, SendSync};

#[derive(Debug)]
struct SendSyncError;

impl fmt::Display for SendSyncError {
    fn fmt(&self, f: &mut fmt::Formatter) -> fmt::Result {
        f.write_str("Error")
    }
}

impl OptSend for SendSyncError {
    const IMPL_SEND: bool = true;
}

impl OptSync for SendSyncError {
    const IMPL_SYNC: bool = true;
}

/// Holds an `Rc`, so it is neither transferable nor shareable.
#[derive(Debug)]
struct NoSendError(Rc<u8>);

impl fmt::Display for NoSendError {
    fn fmt(&self, f: &mut fmt::Formatter) -> fmt::Result {
        f.write_str(&format!("no send {}", self.0))
    }
}

impl OptSend for NoSendError {
    const IMPL_SEND: bool = false;
}

impl OptSync for NoSendError {
    const IMPL_SYNC: bool = false;
}

/// Holds a `Cell`, so it is transferable but not shareable.
#[derive(Debug)]
struct SendOnlyError(Cell<u32>);

impl fmt::Display for SendOnlyError {
    fn fmt(&self, f: &mut fmt::Formatter) -> fmt::Result {
        f.write_str(&format!("send only {}", self.0.get()))
    }
}

impl OptSend for SendOnlyError {
    const IMPL_SEND: bool = true;
}

impl OptSync for SendOnlyError {
    const IMPL_SYNC: bool = false;
}

#[test]
fn it_works() {
    let erased_send_sync: Error = Error::<NoSendSync>::from(SendSyncError);
    let erased_no_send: Error = Error::<NoSendSync>::from(NoSendError(Rc::new(1)));

    assert!(erased_send_sync.make_send().is_some());
    assert!(erased_no_send.make_send().is_none());
}

#[test]
fn untagged_without_capabilities_cannot_be_made_transferable() {
    let e: Error = Error::<NoSendSync>::from(NoSendError(Rc::new(7)));
    assert!(e.make_send().is_none());
}

#[test]
fn untagged_send_sync_value_upgrades_and_keeps_text() {
    let v = SendSyncError;
    let before = v.to_string();
    let e: Error = Error::<NoSendSync>::from(v);
    let up: Error<SendSync> = e.make_sync().expect("both capabilities recorded");
    assert_eq!(up.display(), before);
    assert_eq!(up.display(), "Error");
}

#[test]
fn transferable_not_shareable_refuses_sharing_but_survives_downgrade() {
    let e: Error<NoSync> = Error::<NoSync>::from(SendOnlyError(Cell::new(3)));
    assert!(e.make_sync().is_none());

    let e: Error<NoSync> = Error::<NoSync>::from(SendOnlyError(Cell::new(3)));
    let dropped: Error = e.make_no_send();
    let again = dropped.make_send();
    assert!(again.is_some());
    assert_eq!(again.unwrap().display(), "send only 3");
}

#[test]
fn transferable_upgrade_follows_declared_shareability() {
    let yes: Error<NoSync> = Error::<NoSync>::from(SendSyncError);
    assert!(yes.make_sync().is_some());
    let no: Error<NoSync> = Error::<NoSync>::from(SendOnlyError(Cell::new(0)));
    assert!(no.make_sync().is_none());
    // The same type gives the same answer every time.
    let yes_again: Error<NoSync> = Error::<NoSync>::from(SendSyncError);
    assert!(yes_again.make_sync().is_some());
}

#[test]
fn drop_then_upgrade_restores_shared_tag() {
    let e: Error<SendSync> = Error::<SendSync>::from(SendSyncError);
    let back = e.make_no_send().make_sync();
    assert!(back.is_some());
    assert_eq!(back.unwrap().into_inner(), "Error");
}

#[test]
fn into_inner_after_retags_is_original() {
    let e: Error = Error::<NoSendSync>::from("boom".to_string());
    let e = e.make_send().unwrap();
    let e = e.make_sync().unwrap();
    let e = e.make_no_send();
    let e = e.make_sync().unwrap();
    assert_eq!(e.into_inner(), "boom");
}

#[test]
fn display_matches_pre_erasure_text() {
    let v = NoSendError(Rc::new(42));
    let before = v.to_string();
    let e: Error = Error::<NoSendSync>::from(v);
    assert_eq!(e.display(), before);
    assert_eq!(e.display(), "no send 42");
}

#[test]
fn new_records_the_constructor_capabilities() {
    let untagged: Error = Error::<NoSendSync>::new("a".to_string());
    assert!(untagged.make_send().is_none());
    let untagged: Error = Error::<NoSendSync>::new("a".to_string());
    assert!(untagged.make_sync().is_none());

    let send: Error<NoSync> = Error::<NoSync>::new("b".to_string());
    assert!(send.make_sync().is_none());
    let send: Error<NoSync> = Error::<NoSync>::new("b".to_string());
    let dropped = send.make_no_send();
    assert!(dropped.make_send().is_some());

    let both: Error<SendSync> = Error::<SendSync>::new("c".to_string());
    let dropped = both.make_no_send();
    let up = dropped.make_sync().unwrap();
    assert_eq!(up.into_inner(), "c");
}

#[test]
fn string_declares_both_capabilities() {
    assert!(<String as OptSend>::IMPL_SEND);
    assert!(<String as OptSync>::IMPL_SYNC);
    assert!(<str as OptSend>::IMPL_SEND);
    assert!(<str as OptSync>::IMPL_SYNC);
    let e: Error = Error::<NoSendSync>::from("msg".to_string());
    let up = e.make_sync().unwrap();
    assert_eq!(up.display(), "msg");
}

#[test]
fn new_keeps_text_as_given() {
    let e: Error<NoSync> = Error::<NoSync>::new(String::new());
    assert_eq!(e.display(), "");
    assert_eq!(e.into_inner(), "");
}
