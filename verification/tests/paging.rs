use bridge::paging::{PageBuilder, PAGE_SIZE};

fn feed(builder: &mut PageBuilder<u32>, events: std::ops::Range<u32>) -> Vec<Option<(Vec<u32>, bool)>> {
    let mut out = Vec::new();
    for e in events {
        out.push(match builder.offer::<String>(Ok(Some(e))) {
            None => None,
            Some(Ok(p)) => Some((p.events, p.done)),
            Some(Err(e)) => panic!("unexpected error {}", e),
        });
    }
    out
}

#[test]
fn page_finishes_at_page_size() {
    let mut builder = PageBuilder::new();
    let outcomes = feed(&mut builder, 0..(PAGE_SIZE as u32));
    for o in &outcomes[..PAGE_SIZE - 1] {
        assert!(o.is_none());
    }
    assert_eq!(outcomes[PAGE_SIZE - 1], Some(((0..PAGE_SIZE as u32).collect(), false)));
    // The builder starts the next page empty.
    let next = feed(&mut builder, 100..103);
    assert!(next.iter().all(|o| o.is_none()));
    match builder.offer::<String>(Ok(None)) {
        Some(Ok(p)) => {
            assert_eq!(p.events, vec![100, 101, 102]);
            assert!(!p.done);
        }
        _ => panic!("expected a page"),
    }
}

#[test]
fn stream_end_with_nothing_pending_is_done() {
    let mut builder: PageBuilder<u32> = PageBuilder::new();
    match builder.offer::<String>(Ok(None)) {
        Some(Ok(p)) => {
            assert!(p.events.is_empty());
            assert!(p.done);
        }
        _ => panic!("expected a done page"),
    }
}

#[test]
fn stream_error_ends_the_page_and_drops_pending_events() {
    let mut builder = PageBuilder::new();
    feed(&mut builder, 0..5);
    match builder.offer(Err("lost".to_string())) {
        Some(Err(e)) => assert_eq!(e, "lost"),
        _ => panic!("expected the error"),
    }
    match builder.offer::<String>(Ok(None)) {
        Some(Ok(p)) => {
            assert!(p.events.is_empty());
            assert!(p.done);
        }
        _ => panic!("expected a done page"),
    }
}
