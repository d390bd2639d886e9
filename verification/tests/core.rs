use hn_tui::controller::{Action, Controller, Mode};
use hn_tui::errors::AppError;
use hn_tui::events::{Event, EventQueue, Key, DEFAULT_TICK_MS};
use hn_tui::fetch::{assemble, top_window, TOP_WINDOW};
use hn_tui::items::{post_link, HNComment, HNPost, UrlTarget};
use hn_tui::selection::SelectionList;

fn post(id: u64, url: Option<&str>, kids: Option<Vec<u64>>) -> HNPost {
    HNPost {
        title: format!("post {}", id),
        score: 10,
        url: url.map(|u| u.to_string()),
        by: "someone".to_string(),
        time: 1_600_000_000,
        id,
        descendants: kids.as_ref().map(|k| k.len() as u32),
        kids,
    }
}

fn comment(id: u64) -> HNComment {
    HNComment {
        id,
        text: Some(format!("comment {}", id)),
        by: "someone".to_string(),
    }
}

#[test]
fn assemble_preserves_input_order_for_any_arrival_order() {
    // Requests 0..4 resolve in a scrambled order; the result is still
    // index-aligned with the input.
    let ids: Vec<u64> = vec![11, 22, 33, 44];
    let arrivals: Vec<(usize, Result<HNPost, AppError>)> = vec![
        (2, Ok(post(33, None, None))),
        (0, Ok(post(11, None, None))),
        (3, Ok(post(44, None, None))),
        (1, Ok(post(22, None, None))),
    ];
    let out = assemble(ids.len(), arrivals).unwrap();
    assert_eq!(out.len(), 4);
    for (i, id) in ids.iter().enumerate() {
        assert_eq!(out[i].id, *id);
    }
}

#[test]
fn assemble_fails_when_any_single_request_fails() {
    let arrivals: Vec<(usize, Result<HNPost, AppError>)> = vec![
        (1, Ok(post(22, None, None))),
        (0, Err(AppError::Network)),
        (2, Ok(post(33, None, None))),
    ];
    assert_eq!(assemble(3, arrivals), Err(AppError::Network));

    let arrivals: Vec<(usize, Result<HNComment, AppError>)> =
        vec![(0, Ok(comment(1))), (1, Err(AppError::Decode))];
    assert_eq!(assemble(2, arrivals), Err(AppError::Decode));
}

#[test]
fn top_window_caps_at_one_hundred() {
    let many: Vec<u64> = (0..150).collect();
    let got = top_window(many.clone());
    assert_eq!(got.len(), TOP_WINDOW);
    assert_eq!(&got[..], &many[..100]);

    let few: Vec<u64> = (0..40).collect();
    assert_eq!(top_window(few.clone()), few);
}

#[test]
fn selection_steps_are_circular() {
    let items: Vec<u64> = vec![10, 20, 30, 40, 50];
    let n = items.len();
    let mut list = SelectionList::with_items(items);
    assert_eq!(list.selected_index(), Some(0));
    // next() composed k times from index 0 lands on k % n.
    for k in 1..=2 * n {
        list.next();
        assert_eq!(list.selected_index(), Some(k % n));
    }
    // previous() is the inverse of next().
    for k in (0..2 * n).rev() {
        list.previous();
        assert_eq!(list.selected_index(), Some(k % n));
    }
    // previous() from index 0 wraps to the last index.
    list.previous();
    assert_eq!(list.selected_index(), Some(n - 1));
    assert_eq!(*list.selected().unwrap(), 50);
}

#[test]
fn selection_over_empty_sequence_is_inert() {
    let mut list: SelectionList<u64> = SelectionList::with_items(Vec::new());
    assert_eq!(list.selected_index(), None);
    assert!(list.selected().is_none());
    list.next();
    assert_eq!(list.selected_index(), None);
    list.previous();
    assert_eq!(list.selected_index(), None);
    assert!(list.selected().is_none());
}

#[test]
fn queue_keeps_every_input_and_coalesces_ticks() {
    let mut q = EventQueue::new(3);
    assert!(q.push_tick());
    q.push_input(Key::Down);
    q.push_input(Key::Char('c'));
    // A tick is already pending: this one coalesces into nothing.
    assert!(!q.push_tick());
    q.push_input(Key::Char('q'));
    // Arrival order is preserved across both sources, inputs all kept.
    assert_eq!(q.pop_event(), Some(Event::Tick));
    assert_eq!(q.pop_event(), Some(Event::Input(Key::Down)));
    assert_eq!(q.pop_event(), Some(Event::Input(Key::Char('c'))));
    assert_eq!(q.pop_event(), Some(Event::Input(Key::Char('q'))));
    assert_eq!(q.pop_event(), None);
}

#[test]
fn queue_drops_ticks_when_full_but_never_inputs() {
    let mut q = EventQueue::new(2);
    q.push_input(Key::Up);
    q.push_input(Key::Down);
    // At the bound: a tick is dropped...
    assert!(!q.push_tick());
    // ...but an input still goes to the back of the queue.
    q.push_input(Key::Left);
    assert_eq!(q.pop_event(), Some(Event::Input(Key::Up)));
    assert_eq!(q.pop_event(), Some(Event::Input(Key::Down)));
    assert_eq!(q.pop_event(), Some(Event::Input(Key::Left)));
}

#[test]
fn default_tick_period_is_250_ms() {
    assert_eq!(DEFAULT_TICK_MS, 250);
}

#[test]
fn initial_fetch_failure_is_fatal_and_carries_the_error() {
    let r = Controller::from_initial_fetch(Err(AppError::Network));
    assert!(matches!(r, Err(AppError::Network)));
}

#[test]
fn pressing_c_on_a_post_with_kids_fetches_them_in_order() {
    let posts = vec![post(1, None, Some(vec![1, 2, 3])), post(2, None, None)];
    let mut ctrl = Controller::from_initial_fetch(Ok(posts)).unwrap();
    assert_eq!(ctrl.mode(), Mode::Browsing);

    // 'c' on the selected post with kids [1, 2, 3]: one fetch per kid.
    let action = ctrl.handle_event(Event::Input(Key::Char('c')));
    let ids = match action {
        Action::FetchComments(ids) => ids,
        other => panic!("expected a comment fetch, got {:?}", other),
    };
    assert_eq!(ids, vec![1, 2, 3]);
    assert_eq!(ctrl.mode(), Mode::Browsing);

    // One of the three fetches failing keeps the state, non-fatally.
    let ok = ctrl.on_comments(Err(AppError::Network));
    assert!(!ok);
    assert_eq!(ctrl.mode(), Mode::Browsing);
    assert_eq!(ctrl.comments().len(), 0);

    // All three succeeding loads the thread, in input order.
    let fetched = vec![comment(1), comment(2), comment(3)];
    let ok = ctrl.on_comments(Ok(fetched));
    assert!(ok);
    assert_eq!(ctrl.mode(), Mode::BrowsingWithComments);
    let loaded: Vec<u64> = ctrl.comments().iter().map(|c| c.id).collect();
    assert_eq!(loaded, vec![1, 2, 3]);
}

#[test]
fn pressing_c_without_kids_is_a_no_op() {
    let posts = vec![post(1, None, None)];
    let mut ctrl = Controller::from_initial_fetch(Ok(posts)).unwrap();
    let action = ctrl.handle_event(Event::Input(Key::Char('c')));
    assert_eq!(action, Action::Idle);
    assert_eq!(ctrl.mode(), Mode::Browsing);
    assert_eq!(ctrl.comments().len(), 0);
    assert_eq!(ctrl.posts().selected_index(), Some(0));
}

#[test]
fn cursor_moves_wrap_and_state_is_otherwise_kept() {
    let posts = vec![post(1, None, None), post(2, None, None), post(3, None, None)];
    let mut ctrl = Controller::from_initial_fetch(Ok(posts)).unwrap();
    assert_eq!(ctrl.handle_event(Event::Input(Key::Down)), Action::Idle);
    assert_eq!(ctrl.posts().selected_index(), Some(1));
    assert_eq!(ctrl.handle_event(Event::Input(Key::Up)), Action::Idle);
    assert_eq!(ctrl.posts().selected_index(), Some(0));
    assert_eq!(ctrl.handle_event(Event::Input(Key::Up)), Action::Idle);
    assert_eq!(ctrl.posts().selected_index(), Some(2));
    assert_eq!(ctrl.handle_event(Event::Input(Key::Down)), Action::Idle);
    assert_eq!(ctrl.posts().selected_index(), Some(0));
    assert_eq!(ctrl.mode(), Mode::Browsing);
}

#[test]
fn tick_asks_for_a_redraw_and_q_quits() {
    let posts = vec![post(1, None, None)];
    let mut ctrl = Controller::from_initial_fetch(Ok(posts)).unwrap();
    assert_eq!(ctrl.handle_event(Event::Tick), Action::Redraw);
    assert_eq!(ctrl.handle_event(Event::Input(Key::Other)), Action::Idle);
    assert_eq!(ctrl.handle_event(Event::Input(Key::Char('x'))), Action::Idle);
    assert_eq!(ctrl.handle_event(Event::Input(Key::Char('q'))), Action::Quit);
}

#[test]
fn right_opens_the_post_url_left_its_discussion_page() {
    let posts = vec![
        post(7, Some("https://example.org/a"), None),
        post(8, None, None),
    ];
    let mut ctrl = Controller::from_initial_fetch(Ok(posts)).unwrap();
    assert_eq!(
        ctrl.handle_event(Event::Input(Key::Right)),
        Action::Open(UrlTarget::Direct("https://example.org/a".to_string()))
    );
    assert_eq!(
        ctrl.handle_event(Event::Input(Key::Left)),
        Action::Open(UrlTarget::ItemPage(7))
    );
    ctrl.handle_event(Event::Input(Key::Down));
    // Without a URL of its own, the post's discussion page is opened.
    assert_eq!(
        ctrl.handle_event(Event::Input(Key::Right)),
        Action::Open(UrlTarget::ItemPage(8))
    );
}

#[test]
fn events_on_an_empty_post_list_do_nothing() {
    let mut ctrl = Controller::from_initial_fetch(Ok(Vec::new())).unwrap();
    assert_eq!(ctrl.handle_event(Event::Input(Key::Char('c'))), Action::Idle);
    assert_eq!(ctrl.handle_event(Event::Input(Key::Right)), Action::Idle);
    assert_eq!(ctrl.handle_event(Event::Input(Key::Left)), Action::Idle);
    assert_eq!(ctrl.handle_event(Event::Input(Key::Down)), Action::Idle);
    assert_eq!(ctrl.posts().selected_index(), None);
}

#[test]
fn post_link_prefers_the_posts_own_url() {
    let with_url = post(5, Some("https://example.org/x"), None);
    assert_eq!(
        post_link(&with_url),
        UrlTarget::Direct("https://example.org/x".to_string())
    );
    let without = post(6, None, None);
    assert_eq!(post_link(&without), UrlTarget::ItemPage(6));
}
