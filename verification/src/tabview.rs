//! The tab container: pane storage, active-tab tracking, key dispatch.
//!
//! A [`TabView`] owns an ordered sequence of panes of one concrete
//! widget type, tracks which one is active, delegates rendering and
//! refreshing to the active pane, and overlays the tab strip onto the
//! header. The [`Tabbable`] capability is what a host application
//! sees on top of it: tab-level semantics — how a tab is created or
//! closed, what to do after a switch, the display name of each tab —
//! together with the default key-routing policy. A host supplies those
//! semantics by implementing [`TabLogic`] on its pane type, which makes
//! the container of that pane type [`Tabbable`].

use vstd::prelude::*;
use crate::errors::message_of;
use crate::errors::TabError;
use crate::header::compose_header;
use crate::header::header_of;
use crate::keys::route_key;
use crate::keys::Key;
use crate::keys::TabCmd;
use crate::widget::Widget;
use crate::widget::WidgetCore;

verus! {

/// The capability a host application implements to supply tab-level
/// semantics on top of a container: how a tab is created or closed,
/// what to do after a switch, and the display name of each tab, while
/// inheriting the default key-routing policy of
/// [`Tabbable::on_key`].
pub trait Tabbable: Sized {
    /// The pane capability the host exposes its active tab through.
    type Tab: Widget;

    /// Create and attach a new pane. Failure conditions are the
    /// host's own (resource exhaustion, say) and are surfaced.
    fn new_tab(&mut self) -> Result<(), TabError>;

    /// Remove the current tab. Must either refuse to close the last
    /// tab with a typed error or leave a documented empty state.
    fn close_tab(&mut self) -> Result<(), TabError>;

    /// Advance the active tab, wrapping to the first after the last.
    fn next_tab(&mut self) -> Result<(), TabError>;

    /// Hook invoked after a successful tab switch. It may report a
    /// failure — which the switch logs and discards, so the switch
    /// always completes — but must leave the host as it found it.
    fn on_next_tab(&mut self) -> (r: Result<(), TabError>)
        ensures
            *final(self) == *old(self),
    {
        Ok(())
    }

    /// One optional display label per pane, in pane order.
    fn get_tab_names(&self) -> Vec<Option<String>>;

    /// The active pane, viewed through the widget capability; a typed
    /// error when no pane is active.
    fn active_tab(&self) -> Result<&Self::Tab, TabError>;

    /// The active pane, exclusively, through the widget capability; a
    /// typed error when no pane is active.
    fn active_tab_mut(&mut self) -> Result<&mut Self::Tab, TabError>;

    /// Receives every key that no reserved chord claims.
    fn on_key_sub(&mut self, key: Key) -> Result<(), TabError>;

    /// The default key dispatch: the three reserved chords route to
    /// [`Tabbable::new_tab`], [`Tabbable::close_tab`] and
    /// [`Tabbable::next_tab`]; every other key is forwarded verbatim
    /// to [`Tabbable::on_key_sub`].
    fn on_key(&mut self, key: Key) -> Result<(), TabError> {
        match route_key(key) {
            TabCmd::NewTab => self.new_tab(),
            TabCmd::CloseTab => self.close_tab(),
            TabCmd::NextTab => self.next_tab(),
            TabCmd::Forward => self.on_key_sub(key),
        }
    }
}

/// The injected tab-level behavior of a pane type: what a host
/// implements on its own pane type so that the container of that pane
/// type becomes [`Tabbable`]. Every operation receives the container
/// it is to act on.
pub trait TabLogic: Widget + Sized {
    /// Create a new pane and attach it to `tv`.
    fn new_tab(tv: &mut TabView<Self>) -> Result<(), TabError>;

    /// Remove the current tab of `tv`.
    fn close_tab(tv: &mut TabView<Self>) -> Result<(), TabError>;

    /// Advance `tv` to the next tab.
    fn next_tab(tv: &mut TabView<Self>) -> Result<(), TabError>;

    /// Hook invoked after a successful tab switch. It may report a
    /// failure, which is logged and discarded, but must leave the
    /// container as it found it.
    fn on_next_tab(tv: &mut TabView<Self>) -> (r: Result<(), TabError>)
        ensures
            *final(tv) == *old(tv),
    {
        Ok(())
    }

    /// One optional display label per pane of `tv`, in pane order.
    fn tab_names(tv: &TabView<Self>) -> Vec<Option<String>>;

    /// Receives every key that no reserved chord claims.
    fn on_key_sub(tv: &mut TabView<Self>, key: Key) -> Result<(), TabError>;
}

impl<T: TabLogic> Tabbable for TabView<T> {
    type Tab = T;

    fn new_tab(&mut self) -> Result<(), TabError> {
        T::new_tab(self)
    }

    fn close_tab(&mut self) -> Result<(), TabError> {
        T::close_tab(self)
    }

    fn next_tab(&mut self) -> Result<(), TabError> {
        T::next_tab(self)
    }

    fn on_next_tab(&mut self) -> (r: Result<(), TabError>) {
        T::on_next_tab(self)
    }

    fn get_tab_names(&self) -> Vec<Option<String>> {
        T::tab_names(self)
    }

    /// The active pane of the container, [`TabError::NoTab`] when the
    /// active index names none.
    fn active_tab(&self) -> (r: Result<&T, TabError>)
        ensures
            self.active < self.widgets@.len() ==> r is Ok && *r->Ok_0 == self.widgets@.index(
                self.active as int,
            ),
            self.active >= self.widgets@.len() ==> r is Err && r->Err_0 == TabError::NoTab,
    {
        if self.active < self.widgets.len() {
            Ok(self.active_tab_())
        } else {
            Err(TabError::NoTab)
        }
    }

    /// The active pane of the container, exclusively;
    /// [`TabError::NoTab`] when the active index names none.
    fn active_tab_mut(&mut self) -> (r: Result<&mut T, TabError>)
        ensures
            old(self).active < old(self).widgets@.len() ==> r is Ok,
            old(self).active >= old(self).widgets@.len() ==> r is Err
                && r->Err_0 == TabError::NoTab,
    {
        if self.active < self.widgets.len() {
            Ok(self.active_tab_mut_())
        } else {
            Err(TabError::NoTab)
        }
    }

    fn on_key_sub(&mut self, key: Key) -> Result<(), TabError> {
        T::on_key_sub(self, key)
    }
}

/// Check the host's tab-name list against the pane count `n` and
/// unwrap it: it succeeds exactly when the list holds one present
/// name per pane, in pane order, and then returns those names.
/// Anything else — a short or long list, an absent name — is
/// [`TabError::BadNames`].
pub fn check_names(names: &Vec<Option<String>>, n: usize) -> (r: Result<Vec<String>, TabError>)
    ensures
        r is Ok <==> (names@.len() == n && forall|i: int| 0 <= i < n ==> names@[i] is Some),
        r is Ok ==> r->Ok_0.deep_view() =~= Seq::new(n as nat, |i: int| names@[i]->Some_0@),
        r is Err ==> r->Err_0 == TabError::BadNames,
{
    if names.len() != n {
        return Err(TabError::BadNames);
    }
    let mut out: Vec<String> = Vec::new();
    let mut i: usize = 0;
    while i < names.len()
        invariant
            i <= names@.len(),
            names@.len() == n,
            out@.len() == i,
            forall|j: int| 0 <= j < i ==> names@[j] is Some,
            forall|j: int| 0 <= j < i ==> out.deep_view()[j] == names@[j]->Some_0@,
        decreases names@.len() - i,
    {
        match &names[i] {
            Some(name) => {
                let ghost prev = out;
                out.push(name.clone());
                proof {
                    assert(names@[i as int] is Some);
                    assert forall|j: int| 0 <= j < i + 1 implies out.deep_view()[j]
                        == names@[j]->Some_0@ by {
                        assert(out.deep_view()[j] == out@[j]@);
                        if j < i {
                            assert(prev.deep_view()[j] == names@[j]->Some_0@);
                            assert(prev.deep_view()[j] == prev@[j]@);
                            assert(out@[j] == prev@[j]);
                        } else {
                            assert(out@[j] == names@[j]->Some_0);
                        }
                    }
                }
            },
            None => {
                return Err(TabError::BadNames);
            },
        }
        i += 1;
    }
    proof {
        assert(out.deep_view() =~= Seq::new(n as nat, |i: int| names@[i]->Some_0@));
    }
    Ok(out)
}

/// The next active index after a forward switch among `len` tabs:
/// one further, wrapping to the first tab after the last.
pub open spec fn wrap_next(active: int, len: int) -> int {
    if active + 1 == len {
        0
    } else {
        active + 1
    }
}

/// A generic, homogeneous tab container: an ordered sequence of panes
/// of one widget type, the index of the active pane, and the shared
/// core state the container's own widget contract needs.
#[derive(PartialEq)]
pub struct TabView<T> {
    /// The panes, in tab order.
    pub widgets: Vec<T>,
    /// The index of the active pane.
    pub active: usize,
    /// The shared core state: geometry and the error-log sink.
    pub core: WidgetCore,
}

impl<T> TabView<T> {
    /// The container's invariant: the active index names a pane
    /// whenever there is one, and rests at zero when there is none.
    /// [`TabView::pop_widget`] may leave the active index one past the
    /// end — the transient teardown state — until the host's close
    /// logic adjusts it.
    pub open spec fn wf(&self) -> bool {
        if self.widgets@.len() == 0 {
            self.active == 0
        } else {
            self.active < self.widgets@.len()
        }
    }
}

impl<T: Widget> TabView<T> {
    /// An empty container sharing `core`'s geometry, with the active
    /// index at zero.
    pub fn new(core: &WidgetCore) -> (r: TabView<T>)
        ensures
            r.wf(),
            r.widgets@.len() == 0,
            r.active == 0,
            r.core.coordinates == core.coordinates,
            r.core.log@ == core.log@,
    {
        TabView { widgets: Vec::new(), active: 0, core: core.clone() }
    }

    /// Append `widget` at the end of the sequence, then refresh the
    /// active pane — which is the new pane exactly when the container
    /// was empty. The active index does not move. The append happens
    /// whatever the refreshed pane reports; a pane failure is
    /// surfaced in the result.
    pub fn push_widget(&mut self, widget: T) -> (r: Result<(), TabError>)
        requires
            old(self).wf(),
        ensures
            final(self).wf(),
            final(self).active == old(self).active,
            final(self).core == old(self).core,
            final(self).widgets@.len() == old(self).widgets@.len() + 1,
            forall|i: int|
                0 <= i < old(self).widgets@.len() && i != old(self).active as int
                    ==> final(self).widgets@[i] == old(self).widgets@[i],
            old(self).widgets@.len() > 0
                ==> final(self).widgets@[old(self).widgets@.len() as int] == widget,
    {
        self.widgets.push(widget);
        self.refresh_()
    }

    /// Remove and return the last pane in the sequence; the active
    /// index and the core are untouched. Popping an empty sequence
    /// fails with [`TabError::NoTab`] and mutates nothing.
    pub fn pop_widget(&mut self) -> (r: Result<T, TabError>)
        ensures
            old(self).widgets@.len() == 0 ==> r is Err && r->Err_0 == TabError::NoTab
                && final(self).widgets@ == old(self).widgets@
                && final(self).active == old(self).active
                && final(self).core == old(self).core,
            old(self).widgets@.len() > 0 ==> r is Ok && r->Ok_0 == old(self).widgets@.last()
                && final(self).widgets@ == old(self).widgets@.drop_last()
                && final(self).active == old(self).active
                && final(self).core == old(self).core,
    {
        match self.widgets.pop() {
            Some(widget) => Ok(widget),
            None => Err(TabError::NoTab),
        }
    }

    /// The active pane.
    pub fn active_tab_(&self) -> (r: &T)
        requires
            self.active < self.widgets@.len(),
        ensures
            *r == self.widgets@[self.active as int],
    {
        &self.widgets[self.active]
    }

    /// The active pane, exclusively.
    pub fn active_tab_mut_(&mut self) -> (r: &mut T)
        requires
            old(self).active < old(self).widgets@.len(),
        ensures
            *r == old(self).widgets@[old(self).active as int],
            final(self).widgets@ == old(self).widgets@.update(
                old(self).active as int,
                *final(r),
            ),
            final(self).active == old(self).active,
            final(self).core == old(self).core,
    {
        &mut self.widgets[self.active]
    }

    /// Close the current tab: remove the last pane and step the active
    /// index back by one. Correct use closes only the rightmost tab,
    /// which must be the active one — hence the precondition. Closing
    /// the only remaining tab is refused with [`TabError::LastTab`]
    /// and mutates nothing, so a repeated attempt fails identically.
    pub fn close_tab_(&mut self) -> (r: Result<(), TabError>)
        requires
            old(self).active + 1 == old(self).widgets@.len(),
        ensures
            final(self).wf(),
            old(self).widgets@.len() == 1 ==> r is Err && r->Err_0 == TabError::LastTab
                && *final(self) == *old(self),
            old(self).widgets@.len() > 1 ==> r is Ok
                && final(self).widgets@ == old(self).widgets@.drop_last()
                && final(self).active == old(self).active - 1
                && final(self).core == old(self).core,
    {
        if self.widgets.len() <= 1 {
            return Err(TabError::LastTab);
        }
        let _popped = self.pop_widget();
        self.active = self.active - 1;
        Ok(())
    }
}

impl<T: Widget> TabView<T> where TabView<T>: Tabbable {
    /// Switch to the next tab, wrapping to the first after the last,
    /// then run the host's [`Tabbable::on_next_tab`] hook. A failure
    /// the hook reports is recorded in the core's log and discarded:
    /// the switch completes and nothing is propagated.
    pub fn next_tab_(&mut self)
        requires
            old(self).wf(),
            old(self).widgets@.len() > 0,
        ensures
            final(self).wf(),
            final(self).widgets@ == old(self).widgets@,
            final(self).active as int == wrap_next(
                old(self).active as int,
                old(self).widgets@.len() as int,
            ),
            final(self).core.coordinates == old(self).core.coordinates,
            old(self).core.log@.is_prefix_of(final(self).core.log@),
            final(self).core.log@.len() <= old(self).core.log@.len() + 1,
            final(self).core.log@.len() > old(self).core.log@.len() ==> exists|e: TabError|
                final(self).core.log@.last()@ == message_of(e),
    {
        let count = self.widgets.len();
        if self.active + 1 == count {
            self.active = 0;
        } else {
            self.active = self.active + 1;
        }
        match self.on_next_tab() {
            Ok(_u) => {
                proof {
                    assert(self.core.log@.is_prefix_of(self.core.log@)) by {
                        assert(self.core.log@.subrange(0, self.core.log@.len() as int) =~= self
                            .core
                            .log@);
                    }
                }
            },
            Err(e) => {
                let entry = e.message();
                let ghost before = self.core.log@;
                self.core.log.push(entry);
                proof {
                    assert(before.is_prefix_of(self.core.log@)) by {
                        assert(self.core.log@.subrange(0, before.len() as int) =~= before);
                    }
                    assert(self.core.log@.last()@ == message_of(e));
                }
            },
        }
    }
}

impl<T: Widget> TabView<T> {
    /// Refresh the active pane, surfacing the pane's own failure;
    /// when the active index names no pane, fail with
    /// [`TabError::NoTab`] and mutate nothing.
    pub fn refresh_(&mut self) -> (r: Result<(), TabError>)
        ensures
            final(self).active == old(self).active,
            final(self).core == old(self).core,
            final(self).widgets@.len() == old(self).widgets@.len(),
            forall|i: int|
                0 <= i < old(self).widgets@.len() && i != old(self).active as int
                    ==> final(self).widgets@[i] == old(self).widgets@[i],
            old(self).active >= old(self).widgets@.len() ==> r is Err
                && r->Err_0 == TabError::NoTab && *final(self) == *old(self),
    {
        if self.active < self.widgets.len() {
            let pane = &mut self.widgets[self.active];
            pane.refresh()
        } else {
            Err(TabError::NoTab)
        }
    }
}

impl<T: Widget> Widget for TabView<T> where TabView<T>: Tabbable {
    /// The container's own core.
    fn get_core(&self) -> (r: Result<&WidgetCore, TabError>)
        ensures
            r is Ok && *r->Ok_0 == self.core,
    {
        Ok(&self.core)
    }

    /// The container's own core, exclusively; never fails.
    fn get_core_mut(&mut self) -> (r: Result<&mut WidgetCore, TabError>)
        ensures
            r is Ok,
    {
        Ok(&mut self.core)
    }

    /// The composite header: the active pane's header with the tab
    /// strip overlaid, right-justified against the header width. The
    /// exact composition is [`header_of`], computed by
    /// [`compose_header`]; the pane's header text and the tab names
    /// are whatever the host hands out. Fails with
    /// [`TabError::NoTab`] when the active index names no pane, and
    /// with [`TabError::BadNames`] when the host's name list does not
    /// supply one name per pane.
    fn render_header(&self) -> (r: Result<String, TabError>)
        ensures
            self.active >= self.widgets@.len() ==> r is Err && r->Err_0 == TabError::NoTab,
            r is Ok ==> exists|pane_header: Seq<char>, names: Seq<Seq<char>>|
                names.len() == self.widgets@.len() && r->Ok_0@ == header_of(
                    pane_header,
                    names,
                    self.active as int,
                    self.core.coordinates.xsize,
                ),
    {
        if self.active >= self.widgets.len() {
            return Err(TabError::NoTab);
        }
        let pane = &self.widgets[self.active];
        let pane_header = match pane.render_header() {
            Ok(h) => h,
            Err(e) => {
                return Err(e);
            },
        };
        let tab_names = self.get_tab_names();
        let names = match check_names(&tab_names, self.widgets.len()) {
            Ok(names) => names,
            Err(e) => {
                return Err(e);
            },
        };
        let xsize = self.core.coordinates.xsize;
        let composed = compose_header(pane_header.as_str(), &names, self.active, xsize);
        proof {
            assert(names.deep_view().len() == self.widgets@.len());
            assert(composed@ == header_of(
                pane_header@,
                names.deep_view(),
                self.active as int,
                self.core.coordinates.xsize,
            ));
        }
        Ok(composed)
    }

    /// The footer is the active pane's footer, verbatim.
    fn render_footer(&self) -> (r: Result<String, TabError>)
        ensures
            self.active >= self.widgets@.len() ==> r is Err && r->Err_0 == TabError::NoTab,
    {
        if self.active < self.widgets.len() {
            let pane = &self.widgets[self.active];
            pane.render_footer()
        } else {
            Err(TabError::NoTab)
        }
    }

    /// The draw-list is the active pane's draw-list, verbatim.
    fn get_drawlist(&self) -> (r: Result<String, TabError>)
        ensures
            self.active >= self.widgets@.len() ==> r is Err && r->Err_0 == TabError::NoTab,
    {
        if self.active < self.widgets.len() {
            let pane = &self.widgets[self.active];
            pane.get_drawlist()
        } else {
            Err(TabError::NoTab)
        }
    }

    /// Refreshing the container refreshes the active pane.
    fn refresh(&mut self) -> (r: Result<(), TabError>)
        ensures
            final(self).active == old(self).active,
            final(self).core == old(self).core,
            final(self).widgets@.len() == old(self).widgets@.len(),
            forall|i: int|
                0 <= i < old(self).widgets@.len() && i != old(self).active as int
                    ==> final(self).widgets@[i] == old(self).widgets@[i],
            old(self).active >= old(self).widgets@.len() ==> r is Err
                && r->Err_0 == TabError::NoTab && *final(self) == *old(self),
    {
        self.refresh_()
    }

    /// One full dispatch cycle: run the tab-level key dispatch, then
    /// refresh the active pane whatever the dispatch returned. A
    /// dispatch failure takes precedence in the result; otherwise the
    /// refresh's own result is returned.
    fn on_key(&mut self, key: Key) -> (r: Result<(), TabError>) {
        let dispatched = Tabbable::on_key(self, key);
        let refreshed = self.refresh_();
        match dispatched {
            Ok(_u) => refreshed,
            Err(e) => Err(e),
        }
    }
}

} // verus!
