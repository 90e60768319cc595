//! The queue through which the browser engine's notifications reach the web
//! view: notifications are recorded as they arrive and handled in order on the
//! next frame.
use vstd::prelude::*;

use url::Url;

use crate::cursor::{Cursor, CursorShape, cursor_shape_of, cursor_to_shape};
use crate::text::{seq_starts_with, str_starts_with};

verus! {

/// A notification from the browser engine, waiting to be handled. `L` is the
/// engine's handle on a resource load.
pub enum ProxyEvent<L> {
    /// The page's URL changed.
    UrlChanged(Url),
    /// A new frame can be painted.
    NewFrameReady,
    /// The page asks for another cursor, already mapped to a Godot shape.
    CursorChanged(CursorShape),
    /// A resource load that the web view serves itself.
    LoadWebResource(L),
}

/// The pending notifications, oldest first.
pub struct EventQueue<L> {
    events: Vec<ProxyEvent<L>>,
}

impl<L> View for EventQueue<L> {
    type V = Seq<ProxyEvent<L>>;

    closed spec fn view(&self) -> Seq<ProxyEvent<L>> {
        self.events@
    }
}

/// The scheme prefix of the resources the web view serves itself: `res://`.
pub open spec fn resource_prefix() -> Seq<char> {
    seq!['r', 'e', 's', ':', '/', '/']
}

/// Whether a request's URL names a resource that the web view serves itself.
pub open spec fn is_resource_url(url: Seq<char>) -> bool {
    seq_starts_with(url, resource_prefix())
}

/// Whether a request's URL begins with `res://`, so that the web view serves it
/// from the project's files.
pub fn is_resource_request(url: &str) -> (found: bool)
    ensures
        found == is_resource_url(url@),
{
    proof {
        reveal_strlit("res://");
        assert("res://"@ =~= resource_prefix());
    }
    str_starts_with(url, "res://")
}

impl<L> EventQueue<L> {
    /// An empty queue.
    pub fn new() -> (queue: Self)
        ensures
            queue@ == Seq::<ProxyEvent<L>>::empty(),
    {
        EventQueue { events: Vec::new() }
    }

    /// Records a notification after the pending ones.
    pub fn push(&mut self, event: ProxyEvent<L>)
        ensures
            final(self)@ == old(self)@.push(event),
    {
        self.events.push(event);
    }

    /// Takes all pending notifications, oldest first, and leaves the queue
    /// empty.
    pub fn drain(&mut self) -> (events: Vec<ProxyEvent<L>>)
        ensures
            events@ == old(self)@,
            final(self)@ == Seq::<ProxyEvent<L>>::empty(),
    {
        let mut taken: Vec<ProxyEvent<L>> = Vec::new();
        std::mem::swap(&mut taken, &mut self.events);
        taken
    }

    /// The page's URL changed.
    pub fn notify_url_changed(&mut self, url: Url)
        ensures
            final(self)@ == old(self)@.push(ProxyEvent::UrlChanged(url)),
    {
        self.push(ProxyEvent::UrlChanged(url));
    }

    /// A new frame is ready to be painted.
    pub fn notify_new_frame_ready(&mut self)
        ensures
            final(self)@ == old(self)@.push(ProxyEvent::NewFrameReady),
    {
        self.push(ProxyEvent::NewFrameReady);
    }

    /// The page asks for another cursor; the Godot shape for it is recorded.
    pub fn notify_cursor_changed(&mut self, cursor: Cursor)
        ensures
            final(self)@ == old(self)@.push(ProxyEvent::CursorChanged(cursor_shape_of(cursor))),
    {
        self.push(ProxyEvent::CursorChanged(cursor_to_shape(cursor)));
    }

    /// The engine is about to load a resource. Loads of `res://` URLs are
    /// recorded, for the web view to serve; any other load is left to the
    /// engine. Returns whether the load was recorded.
    pub fn notify_load_web_resource(&mut self, url: &str, load: L) -> (recorded: bool)
        ensures
            recorded == is_resource_url(url@),
            final(self)@ == (if recorded {
                old(self)@.push(ProxyEvent::LoadWebResource(load))
            } else {
                old(self)@
            }),
    {
        if is_resource_request(url) {
            self.push(ProxyEvent::LoadWebResource(load));
            true
        } else {
            false
        }
    }
}

/// A request is served by the web view exactly when its URL begins with the
/// six characters `r`, `e`, `s`, `:`, `/`, `/`.
pub proof fn lemma_resource_url_prefix(url: Seq<char>)
    ensures
        is_resource_url(url) <==> (url.len() >= 6 && url[0] == 'r' && url[1] == 'e' && url[2]
            == 's' && url[3] == ':' && url[4] == '/' && url[5] == '/'),
{
    if url.len() >= 6 && url[0] == 'r' && url[1] == 'e' && url[2] == 's' && url[3] == ':'
        && url[4] == '/' && url[5] == '/' {
        assert(url.subrange(0, 6) =~= resource_prefix());
    }
    if is_resource_url(url) {
        assert(url.subrange(0, 6)[0] == 'r');
        assert(url.subrange(0, 6)[5] == '/');
    }
}

/// The pending notifications after pushing each of `pushed`, in order, onto a
/// queue holding `pending`: one [`EventQueue::push`] per notification.
pub open spec fn after_pushes<L>(pending: Seq<ProxyEvent<L>>, pushed: Seq<ProxyEvent<L>>) -> Seq<
    ProxyEvent<L>,
>
    decreases pushed.len(),
{
    if pushed.len() == 0 {
        pending
    } else {
        after_pushes(pending, pushed.drop_last()).push(pushed.last())
    }
}

/// Notifications are handled in the order they arrived: after any run of
/// pushes, [`EventQueue::drain`] hands out what was pending, then each pushed
/// notification in the order it was pushed.
pub proof fn lemma_pushes_keep_arrival_order<L>(
    pending: Seq<ProxyEvent<L>>,
    pushed: Seq<ProxyEvent<L>>,
)
    ensures
        after_pushes(pending, pushed) == pending + pushed,
    decreases pushed.len(),
{
    if pushed.len() == 0 {
        assert(pending + pushed =~= pending);
    } else {
        lemma_pushes_keep_arrival_order(pending, pushed.drop_last());
        assert(pending + pushed =~= (pending + pushed.drop_last()).push(pushed.last()));
    }
}

} // verus!
