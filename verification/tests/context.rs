//! The context-carrying variant of the pagination engine.

use paginator::{paginate_with_ctx, Page, Step};

fn page(items: Vec<u32>, next: Option<&str>) -> Result<Page<u32>, String> {
    Ok(Page { items, next: next.map(String::from) })
}

#[test]
fn same_context_for_every_fetch() {
    // Every fetch writes through the context reference it was handed; the
    // marks all land in the one cell read back at the end, so every fetch
    // saw the same underlying context object.
    let ctx: std::cell::Cell<u32> = std::cell::Cell::new(0);
    let mut machine = paginate_with_ctx::<std::cell::Cell<u32>, u32, String>(ctx, 2);
    let script = vec![
        page(vec![1, 2], Some("more")),
        page(vec![3, 4], Some("more")),
        page(vec![5], None),
    ];
    let mut script = script.into_iter();
    let mut items: Vec<u32> = Vec::new();
    let mut fetches: u32 = 0;
    loop {
        match machine.advance() {
            Step::Item(t) => items.push(t),
            Step::Error(_) => panic!("no fetch in this script fails"),
            Step::Fetch { .. } => {
                fetches += 1;
                let seen = machine.context();
                seen.set(seen.get() + 1);
                machine.provide(script.next().expect("the machine fetched past the script"));
            }
            Step::Done => break,
        }
    }
    assert_eq!(items, vec![1, 2, 3, 4, 5]);
    assert_eq!(fetches, 3);
    assert_eq!(machine.context().get(), 3);
}

#[test]
fn context_machine_paginates_like_the_plain_one() {
    let mut machine = paginate_with_ctx::<u8, u32, String>(42, 10);
    match machine.advance() {
        Step::Fetch { page_size, offset } => {
            assert_eq!((page_size, offset), (10, 0));
            machine.provide(page(vec![6, 7], None));
        }
        _ => panic!("a fresh machine must ask for a fetch"),
    }
    assert!(matches!(machine.advance(), Step::Item(6)));
    assert_eq!(*machine.context(), 42);
    assert!(matches!(machine.advance(), Step::Item(7)));
    assert!(matches!(machine.advance(), Step::Done));
}

#[test]
fn context_error_is_final() {
    let mut machine = paginate_with_ctx::<&str, u32, String>("ctx", 3);
    match machine.advance() {
        Step::Fetch { .. } => machine.provide(Err(String::from("expired"))),
        _ => panic!("a fresh machine must ask for a fetch"),
    }
    match machine.advance() {
        Step::Error(e) => assert_eq!(e, "expired"),
        _ => panic!("the failure must be handed out as the next element"),
    }
    assert!(matches!(machine.advance(), Step::Done));
    assert_eq!(*machine.context(), "ctx");
}
