//! The application state machine.
//!
//! After a successful initial load the controller owns the selection over
//! the fetched posts and the comments currently on display, and it reacts
//! to each event of the merged stream with one action for the surrounding
//! loop to perform: redraw, quit, open a page, or fetch a post's comments.
//! The controller itself performs no I/O; every side effect is delegated
//! through the returned [`Action`].

use vstd::prelude::*;

use crate::errors::AppError;
use crate::events::{Event, Key};
use crate::items::{copy_ids, post_item_page, post_link, HNComment, HNPost, UrlTarget};
use crate::selection::{next_index, prev_index, SelectionList};

verus! {

/// Which phase of browsing the controller is in: posts alone, or posts
/// with a loaded discussion thread.
#[derive(Clone, Copy, Debug, PartialEq, Eq, Structural)]
pub enum Mode {
    Browsing,
    BrowsingWithComments,
}

/// What the control loop must perform after an event was interpreted.
#[derive(Debug, PartialEq)]
pub enum Action {
    /// Nothing to perform.
    Idle,
    /// Leave the control loop.
    Quit,
    /// Ask the external renderer for a redraw.
    Redraw,
    /// Delegate opening the given page to the external URL opener.
    Open(UrlTarget),
    /// Fetch the comments with the given ids of the selected post.
    FetchComments(Vec<u64>),
}

/// The state the control loop threads through: the selection over the
/// fetched posts, the comments on display, and the browsing phase.
pub struct Controller {
    posts: SelectionList<HNPost>,
    comments: Vec<HNComment>,
    mode: Mode,
}

impl Controller {
    /// The fetched posts, in feed order.
    pub closed spec fn posts_seq(&self) -> Seq<HNPost> {
        self.posts.items_seq()
    }

    /// The selection cursor over the posts.
    pub closed spec fn cursor(&self) -> Option<usize> {
        self.posts.cursor_spec()
    }

    /// The comments on display, oldest first.
    pub closed spec fn comments_seq(&self) -> Seq<HNComment> {
        self.comments@
    }

    /// The browsing phase.
    pub closed spec fn mode_spec(&self) -> Mode {
        self.mode
    }

    /// The post under the cursor, if any.
    pub open spec fn selected_post(&self) -> Option<HNPost> {
        match self.cursor() {
            None => None,
            Some(c) => Some(self.posts_seq()[c as int]),
        }
    }

    pub closed spec fn wf(&self) -> bool {
        self.posts.wf()
    }

    /// The initial transition, out of the loading phase: a successful post
    /// fetch enters `Browsing` with the cursor on the first post and no
    /// comments on display; a failed one is fatal, and carries its error
    /// out unchanged.
    pub fn from_initial_fetch(r: Result<Vec<HNPost>, AppError>) -> (c: Result<
        Controller,
        AppError,
    >)
        ensures
            match r {
                Ok(posts) => {
                    &&& c matches Ok(ctrl)
                    &&& ctrl.wf()
                    &&& ctrl.mode_spec() == Mode::Browsing
                    &&& ctrl.posts_seq() == posts@
                    &&& ctrl.comments_seq() == Seq::<HNComment>::empty()
                    &&& ctrl.cursor() == if posts@.len() == 0 {
                        None::<usize>
                    } else {
                        Some(0usize)
                    }
                },
                Err(e) => c == Err::<Controller, AppError>(e),
            },
    {
        match r {
            Ok(posts) => Ok(
                Controller {
                    posts: SelectionList::with_items(posts),
                    comments: Vec::new(),
                    mode: Mode::Browsing,
                },
            ),
            Err(e) => Err(e),
        }
    }

    /// Read access to the selection over the posts, for a renderer.
    pub fn posts(&self) -> (s: &SelectionList<HNPost>)
        ensures
            s.items_seq() == self.posts_seq(),
            s.cursor_spec() == self.cursor(),
    {
        &self.posts
    }

    /// Read access to the comments on display, for a renderer.
    pub fn comments(&self) -> (v: &Vec<HNComment>)
        ensures
            v@ == self.comments_seq(),
    {
        &self.comments
    }

    /// The browsing phase.
    pub fn mode(&self) -> (m: Mode)
        ensures
            m == self.mode_spec(),
    {
        self.mode
    }

    /// Interprets one event against the current selection.
    ///
    /// The post list, the comments on display and the phase never change
    /// here; only the cursor moves, on `Up` and `Down`. Every transition
    /// of the state machine over the incoming events is stated in the
    /// contract: a tick asks for a redraw and nothing else; `q` quits;
    /// `Down` and `Up` step the cursor circularly; `Right` opens the
    /// selected post's link, `Left` its discussion page; `c` asks for a
    /// fetch of the selected post's comment ids exactly when the post has
    /// some, and is a no-op otherwise. Keys the core does not react to,
    /// and any key when the list is empty, do nothing.
    pub fn handle_event(&mut self, ev: Event) -> (a: Action)
        requires
            old(self).wf(),
        ensures
            final(self).wf(),
            final(self).posts_seq() == old(self).posts_seq(),
            final(self).comments_seq() == old(self).comments_seq(),
            final(self).mode_spec() == old(self).mode_spec(),
            final(self).cursor() == match (ev, old(self).cursor()) {
                (Event::Input(Key::Down), Some(c)) => Some(
                    next_index(c as nat, old(self).posts_seq().len()) as usize,
                ),
                (Event::Input(Key::Up), Some(c)) => Some(
                    prev_index(c as nat, old(self).posts_seq().len()) as usize,
                ),
                (_, cur) => cur,
            },
            match ev {
                Event::Tick => a == Action::Redraw,
                Event::Input(k) => match k {
                    Key::Down | Key::Up => a == Action::Idle,
                    Key::Char(ch) => if ch == 'q' {
                        a == Action::Quit
                    } else if ch == 'c' {
                        match old(self).selected_post() {
                            Some(p) => match p.kids {
                                Some(ks) => a matches Action::FetchComments(ids) && ids@ == ks@,
                                None => a == Action::Idle,
                            },
                            None => a == Action::Idle,
                        }
                    } else {
                        a == Action::Idle
                    },
                    Key::Right => match old(self).selected_post() {
                        Some(p) => match p.url {
                            Some(u) => a matches Action::Open(UrlTarget::Direct(s)) && s@ == u@,
                            None => a == Action::Open(UrlTarget::ItemPage(p.id)),
                        },
                        None => a == Action::Idle,
                    },
                    Key::Left => match old(self).selected_post() {
                        Some(p) => a == Action::Open(UrlTarget::ItemPage(p.id)),
                        None => a == Action::Idle,
                    },
                    Key::Other => a == Action::Idle,
                },
            },
    {
        match ev {
            Event::Tick => Action::Redraw,
            Event::Input(k) => match k {
                Key::Down => {
                    self.posts.next();
                    Action::Idle
                },
                Key::Up => {
                    self.posts.previous();
                    Action::Idle
                },
                Key::Char(ch) => {
                    if ch == 'q' {
                        Action::Quit
                    } else if ch == 'c' {
                        match self.posts.selected() {
                            Some(p) => match &p.kids {
                                Some(ks) => Action::FetchComments(copy_ids(ks)),
                                None => Action::Idle,
                            },
                            None => Action::Idle,
                        }
                    } else {
                        Action::Idle
                    }
                },
                Key::Right => {
                    match self.posts.selected() {
                        Some(p) => Action::Open(post_link(p)),
                        None => Action::Idle,
                    }
                },
                Key::Left => {
                    match self.posts.selected() {
                        Some(p) => Action::Open(post_item_page(p)),
                        None => Action::Idle,
                    }
                },
                Key::Other => Action::Idle,
            },
        }
    }

    /// Applies the outcome of an on-demand comment fetch. On success the
    /// loaded thread replaces the previous one wholesale and the phase
    /// becomes `BrowsingWithComments`; on failure nothing changes and the
    /// failure is surfaced, non-fatally, in the returned flag. The posts
    /// and the cursor are untouched either way.
    pub fn on_comments(&mut self, r: Result<Vec<HNComment>, AppError>) -> (ok: bool)
        requires
            old(self).wf(),
        ensures
            final(self).wf(),
            final(self).posts_seq() == old(self).posts_seq(),
            final(self).cursor() == old(self).cursor(),
            match r {
                Ok(cs) => {
                    &&& ok
                    &&& final(self).mode_spec() == Mode::BrowsingWithComments
                    &&& final(self).comments_seq() == cs@
                },
                Err(_) => {
                    &&& !ok
                    &&& final(self).mode_spec() == old(self).mode_spec()
                    &&& final(self).comments_seq() == old(self).comments_seq()
                },
            },
    {
        match r {
            Ok(cs) => {
                self.comments = cs;
                self.mode = Mode::BrowsingWithComments;
                true
            },
            Err(_) => false,
        }
    }
}

} // verus!
