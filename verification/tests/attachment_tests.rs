use gexbot::attachments::{AttachmentCache, Image, ATTACHMENT_CAPACITY};

fn image(name: &str) -> Image {
    Image { name: name.to_string(), body: name.as_bytes().to_vec() }
}

#[test]
fn store_then_take_returns_images() {
    let mut cache = AttachmentCache::new();
    cache.store(10, vec![image("a.png"), image("b.png")]);
    cache.store(11, vec![image("c.png")]);
    assert_eq!(cache.len(), 2);
    let taken = cache.take(10).expect("images of message 10");
    assert_eq!(taken.id, 10);
    assert_eq!(taken.images.len(), 2);
    assert_eq!(taken.images[0].name, "a.png");
    assert_eq!(taken.images[1].body, b"b.png".to_vec());
    assert_eq!(cache.len(), 1);
    assert!(cache.take(10).is_none());
    assert_eq!(cache.take(11).expect("message 11").images[0].name, "c.png");
    assert_eq!(cache.len(), 0);
}

#[test]
fn empty_image_sets_are_not_kept() {
    let mut cache = AttachmentCache::new();
    cache.store(5, Vec::new());
    assert_eq!(cache.len(), 0);
    assert!(cache.take(5).is_none());
}

#[test]
fn full_cache_drops_oldest() {
    let mut cache = AttachmentCache::new();
    for id in 0..ATTACHMENT_CAPACITY as u64 {
        cache.store(id, vec![image("x")]);
    }
    assert_eq!(cache.len(), ATTACHMENT_CAPACITY);
    cache.store(1000, vec![image("new")]);
    assert_eq!(cache.len(), ATTACHMENT_CAPACITY);
    assert!(cache.take(0).is_none());
    assert!(cache.take(1).is_some());
    assert_eq!(cache.take(1000).expect("newest kept").images[0].name, "new");
}

#[test]
fn take_removes_every_entry_of_the_message() {
    let mut cache = AttachmentCache::new();
    cache.store(3, vec![image("first")]);
    cache.store(4, vec![image("other")]);
    cache.store(3, vec![image("second")]);
    let taken = cache.take(3).expect("oldest entry of message 3");
    assert_eq!(taken.images[0].name, "first");
    assert_eq!(cache.len(), 1);
    assert!(cache.take(3).is_none());
    assert_eq!(cache.take(4).expect("message 4 untouched").images[0].name, "other");
}

#[test]
fn later_store_of_another_message_keeps_entry() {
    let mut cache = AttachmentCache::new();
    cache.store(500, vec![Image { name: "a.png".to_string(), body: vec![1] }]);
    cache.store(600, vec![Image { name: "b.png".to_string(), body: vec![2] }]);
    cache.store(700, Vec::new());
    let taken = cache.take(500).expect("still stored");
    assert_eq!(taken.images[0].name, "a.png");
    assert_eq!(taken.images[0].body, vec![1]);
    assert_eq!(cache.len(), 1);
}
