use arc_or_clone::source::ArcStrSrc;
use std::sync::Arc;

#[test]
fn refcount_rises_and_falls_with_handles() {
    let src = ArcStrSrc::from_strings(&vec!["shared".to_string()]);
    let h1 = src.get_arc();
    // the pool's own reference plus our handle
    assert_eq!(Arc::strong_count(&h1), 2);
    let h2 = src.get_arc();
    assert_eq!(Arc::strong_count(&h1), 3);
    drop(h2);
    assert_eq!(Arc::strong_count(&h1), 2);
    drop(h1);
    // after all fetched handles are dropped, a fresh one again sees only the
    // pool's own reference beside itself: no leak, no premature free
    let h3 = src.get_arc();
    assert_eq!(Arc::strong_count(&h3), 2);
    assert_eq!(h3.as_str(), "shared");
}
