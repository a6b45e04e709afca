//! The application: identifiers, registry, and the message pump.

use crate::error::SystrayError;
use crate::event::SystrayEvent;
use crate::model::ApplicationView;
use crate::window::Window;
use std::collections::HashMap;
use std::sync::mpsc::{Receiver, RecvError, RecvTimeoutError, Sender};
use std::time::Duration;
use vstd::prelude::*;

verus! {

/// The logic that runs when a menu entry is activated.
///
/// A callback is handed the application itself, so it may add entries, change the icon,
/// or pump further messages. While it runs it is not in the registry: an activation of
/// its own entry that arrives in the meantime finds no callback and is discarded.
pub trait Callback<W>: Sized {
    /// How one invocation may change the application: `before` is the application as the
    /// callback finds it, `after` as it leaves it. Each implementation says this of
    /// itself. One that says nothing may do anything.
    open spec fn effect(
        &self,
        before: ApplicationView<Self>,
        after: ApplicationView<Self>,
    ) -> bool {
        true
    }

    /// Runs the callback.
    ///
    /// A callback reaches the application through its public operations only. Each of
    /// them keeps the application well formed, takes no identifier back, leaves every
    /// registered callback in place, gives no callback to an identifier handed out
    /// without one, and keeps the window and the channel. This is what every callback
    /// promises in turn.
    fn invoke(&self, app: &mut Application<W, Self>)
        requires
            old(app).wf(),
        ensures
            final(app).wf(),
            final(app)@.extends(old(app)@),
            final(app).window() == old(app).window(),
            final(app).events() == old(app).events(),
            self.effect(old(app)@, final(app)@),
    ;
}

/// A tray application: its platform window, the callbacks of its menu entries, and the
/// consumer end of the channel on which the window reports activations.
///
/// Dropping an application does not shut its window down: it has no destructor. Call
/// [`Application::shutdown`] before the application goes out of scope, or hold it in a
/// guard that does so when dropped.
pub struct Application<W, C> {
    window: W,
    menu_idx: u32,
    callback: HashMap<u32, C>,
    // The window runs the native event loop on a thread of its own and reports to this
    // channel.
    rx: Receiver<SystrayEvent>,
}

impl<W, C> View for Application<W, C> {
    type V = ApplicationView<C>;

    closed spec fn view(&self) -> ApplicationView<C> {
        ApplicationView { next_id: self.menu_idx as nat, callbacks: self.callback@ }
    }
}

impl<W, C> Application<W, C> {
    /// Every registered identifier has been handed out. Every operation keeps this.
    pub open spec fn wf(&self) -> bool {
        self@.wf()
    }

    /// The platform window that the application owns.
    pub closed spec fn window(&self) -> W {
        self.window
    }

    /// The consumer end of the channel on which the window reports activations.
    pub closed spec fn events(&self) -> Receiver<SystrayEvent> {
        self.rx
    }

    /// Makes an application of a window, if there is one, and the consumer end of its
    /// channel. The application starts with the counter at 0 and nothing registered. The
    /// failure to create the window is handed on unchanged.
    pub fn from_window(built: Result<W, SystrayError>, event_rx: Receiver<SystrayEvent>) -> (r:
        Result<Self, SystrayError>)
        ensures
            match built {
                Ok(w) => {
                    &&& r matches Ok(app)
                    &&& app.wf()
                    &&& app@ == ApplicationView::<C>::initial()
                    &&& app.window() == w
                    &&& app.events() == event_rx
                },
                Err(e) => r matches Err(failure) && failure == e,
            },
    {
        match built {
            Ok(w) => Ok(
                Application { window: w, menu_idx: 0, callback: HashMap::new(), rx: event_rx },
            ),
            Err(e) => Err(e),
        }
    }

    /// The identifier that the next successful addition will return.
    pub fn next_id(&self) -> (id: u32)
        ensures
            id == self@.next_id,
    {
        self.menu_idx
    }

    /// Completes the addition of a menu entry, given the platform window's answer to the
    /// request to add it under the next identifier.
    pub fn record_item(&mut self, added: Result<(), SystrayError>, f: C) -> (r: Result<
        u32,
        SystrayError,
    >)
        requires
            old(self).wf(),
            added is Ok ==> old(self)@.has_room(),
        ensures
            final(self).wf(),
            match added {
                Ok(_) => {
                    &&& r matches Ok(id)
                    &&& id == old(self)@.next_id
                    &&& !old(self)@.callbacks.contains_key(id)
                    &&& final(self)@ == old(self)@.with_item(f)
                    &&& final(self).window() == old(self).window()
                    &&& final(self).events() == old(self).events()
                },
                Err(e) => {
                    &&& r matches Err(failure)
                    &&& failure == e
                    &&& *final(self) == *old(self)
                },
            },
    {
        broadcast use vstd::std_specs::hash::group_hash_axioms;

        if let Err(e) = added {
            return Err(e);
        }
        let idx = self.menu_idx;
        self.callback.insert(idx, f);
        self.menu_idx += 1;
        assert(self@ == old(self)@.with_item(f));
        Ok(idx)
    }

    /// Completes the addition of a separator, given the platform window's answer to the
    /// request to add it under the next identifier.
    pub fn record_separator(&mut self, added: Result<(), SystrayError>) -> (r: Result<
        u32,
        SystrayError,
    >)
        requires
            old(self).wf(),
            added is Ok ==> old(self)@.has_room(),
        ensures
            final(self).wf(),
            match added {
                Ok(_) => {
                    &&& r matches Ok(id)
                    &&& id == old(self)@.next_id
                    &&& final(self)@ == old(self)@.with_separator()
                    &&& final(self).window() == old(self).window()
                    &&& final(self).events() == old(self).events()
                },
                Err(e) => {
                    &&& r matches Err(failure)
                    &&& failure == e
                    &&& *final(self) == *old(self)
                },
            },
    {
        if let Err(e) = added {
            return Err(e);
        }
        let idx = self.menu_idx;
        self.menu_idx += 1;
        assert(self@ == old(self)@.with_separator());
        Ok(idx)
    }
}

impl<W: Window, C> Application<W, C> {
    /// Opens the event channel and creates the platform window on its producer end.
    ///
    /// Whether the window can be created is the platform's decision. Where it can, the
    /// application owns that window and the consumer end of the channel, with the counter
    /// at 0 and nothing registered. Where it cannot, the failure is the one that the
    /// attempt to create the window gave.
    pub fn new() -> (r: Result<Self, SystrayError>)
        ensures
            r matches Ok(app) ==> app.wf() && app@ == ApplicationView::<C>::initial(),
            exists|event_tx: Sender<SystrayEvent>, event_rx: Receiver<SystrayEvent>|
                {
                    &&& #[trigger] call_ensures(
                        std::sync::mpsc::channel::<SystrayEvent>,
                        (),
                        (event_tx, event_rx),
                    )
                    &&& match r {
                        Ok(app) => {
                            &&& app.events() == event_rx
                            &&& call_ensures(
                                W::new,
                                (event_tx,),
                                Ok::<W, SystrayError>(app.window()),
                            )
                        },
                        Err(e) => call_ensures(W::new, (event_tx,), Err::<W, SystrayError>(e)),
                    }
                },
    {
        let (event_tx, event_rx) = std::sync::mpsc::channel();
        Self::from_window(W::new(event_tx), event_rx)
    }

    /// Adds a menu entry labelled `item_name` and registers `f` as its callback.
    ///
    /// The platform window is asked once, to add an entry with this label under the
    /// identifier that is next, and decides whether the entry can be added. On success
    /// the entry has that identifier, which no entry had before. On failure the window's
    /// failure is returned and nothing changes: no identifier is used up and `f` is
    /// dropped.
    pub fn add_menu_item(&mut self, item_name: &String, f: C) -> (r: Result<u32, SystrayError>)
        requires
            old(self).wf(),
            old(self)@.has_room(),
        ensures
            final(self).wf(),
            match r {
                Ok(id) => {
                    &&& id == old(self)@.next_id
                    &&& !old(self)@.callbacks.contains_key(id)
                    &&& final(self)@ == old(self)@.with_item(f)
                    &&& final(self).window() == old(self).window()
                    &&& final(self).events() == old(self).events()
                    &&& call_ensures(
                        W::add_menu_entry,
                        (&old(self).window(), id, item_name),
                        Ok::<(), SystrayError>(()),
                    )
                },
                Err(e) => {
                    &&& *final(self) == *old(self)
                    &&& call_ensures(
                        W::add_menu_entry,
                        (&old(self).window(), old(self)@.next_id as u32, item_name),
                        Err::<(), SystrayError>(e),
                    )
                },
            },
    {
        let idx = self.next_id();
        let added = self.window.add_menu_entry(idx, item_name);
        assert(added matches Ok(done) ==> done == ());
        self.record_item(added, f)
    }

    /// Adds a separator to the menu.
    ///
    /// The platform window is asked once, to add a separator under the identifier that
    /// is next. A separator uses up an identifier like an entry does, and has no
    /// callback. On failure the window's failure is returned and nothing changes.
    pub fn add_menu_separator(&mut self) -> (r: Result<u32, SystrayError>)
        requires
            old(self).wf(),
            old(self)@.has_room(),
        ensures
            final(self).wf(),
            match r {
                Ok(id) => {
                    &&& id == old(self)@.next_id
                    &&& final(self)@ == old(self)@.with_separator()
                    &&& final(self).window() == old(self).window()
                    &&& final(self).events() == old(self).events()
                    &&& call_ensures(
                        W::add_menu_separator,
                        (&old(self).window(), id),
                        Ok::<(), SystrayError>(()),
                    )
                },
                Err(e) => {
                    &&& *final(self) == *old(self)
                    &&& call_ensures(
                        W::add_menu_separator,
                        (&old(self).window(), old(self)@.next_id as u32),
                        Err::<(), SystrayError>(e),
                    )
                },
            },
    {
        let idx = self.next_id();
        let added = self.window.add_menu_separator(idx);
        assert(added matches Ok(done) ==> done == ());
        self.record_separator(added)
    }

    /// Asks the platform window to show the icon stored in `file`, and returns the
    /// window's answer to this request.
    pub fn set_icon_from_file(&self, file: &String) -> (r: Result<(), SystrayError>)
        ensures
            call_ensures(W::set_icon_from_file, (&self.window(), file), r),
    {
        self.window.set_icon_from_file(file)
    }

    /// Asks the platform window to show the icon stored under the name `resource`, and
    /// returns the window's answer to this request.
    pub fn set_icon_from_resource(&self, resource: &String) -> (r: Result<(), SystrayError>)
        ensures
            call_ensures(W::set_icon_from_resource, (&self.window(), resource), r),
    {
        self.window.set_icon_from_resource(resource)
    }

    /// Asks the platform window to tear the native resource down, and returns the
    /// window's answer to this request.
    pub fn shutdown(&self) -> (r: Result<(), SystrayError>)
        ensures
            call_ensures(W::shutdown, (&self.window(),), r),
    {
        self.window.shutdown()
    }

    /// Asks the platform window to show `tooltip` when the pointer rests on the icon,
    /// and returns the window's answer to this request.
    pub fn set_tooltip(&self, tooltip: &String) -> (r: Result<(), SystrayError>)
        ensures
            call_ensures(W::set_tooltip, (&self.window(), tooltip), r),
    {
        self.window.set_tooltip(tooltip)
    }

    /// Asks the platform window to end the native UI loop. The application stays as it
    /// is, its registry included.
    pub fn quit(&mut self)
        ensures
            *final(self) == *old(self),
            call_ensures(W::quit, (&old(self).window(),), ()),
    {
        self.window.quit()
    }
}

impl<W: Window, C: Callback<W>> Application<W, C> {
    /// What the dispatch of one activation of `id` makes of an application.
    ///
    /// Where `id` has a callback, the callback is taken out of the registry, invoked once
    /// on what is left, and put back under `id` into what the invocation returns, which
    /// has lost nothing of what was left. The window and the channel are the same after
    /// it. Where `id` has no callback, nothing happens.
    pub open spec fn dispatched(before: Self, id: u32, after: Self) -> bool {
        if before@.callbacks.contains_key(id) {
            let f = before@.callbacks[id];
            &&& after.window() == before.window()
            &&& after.events() == before.events()
            &&& exists|returned: ApplicationView<C>|
                {
                    &&& #[trigger] f.effect(before@.without(id), returned)
                    &&& returned.wf()
                    &&& returned.extends(before@.without(id))
                    &&& after@ == returned.with_callback(id, f)
                }
        } else {
            after == before
        }
    }

    /// A dispatch is a round trip for the registry. Every entry that had a callback
    /// before the dispatch has the same callback after it, the dispatched one included,
    /// whatever its callback did in between, and a separator has none after it as
    /// before. The dispatch of an identifier without a callback, a separator's or one
    /// never handed out, leaves the application exactly as it was. Either way the
    /// application stays well formed, no identifier is taken back, and the window and
    /// the channel are the same.
    pub proof fn lemma_dispatched_keeps_callback(before: Self, id: u32, after: Self)
        requires
            before.wf(),
            Self::dispatched(before, id, after),
        ensures
            after.wf(),
            after@.extends(before@),
            after.window() == before.window(),
            after.events() == before.events(),
            before@.callbacks.contains_key(id) ==> {
                &&& after@.callbacks.contains_key(id)
                &&& after@.callbacks[id] == before@.callbacks[id]
            },
            !before@.callbacks.contains_key(id) ==> after == before,
    {
        if before@.callbacks.contains_key(id) {
            let left = before@.without(id);
            assert forall|k: u32| #[trigger] before@.callbacks.contains_key(k) implies {
                &&& after@.callbacks.contains_key(k)
                &&& after@.callbacks[k] == before@.callbacks[k]
            } by {
                if k != id {
                    assert(left.callbacks.contains_key(k));
                }
            }
        }
    }

    /// Runs the callback registered for the activated entry, if there is one.
    pub fn dispatch(&mut self, msg: SystrayEvent)
        requires
            old(self).wf(),
        ensures
            final(self).wf(),
            Self::dispatched(*old(self), msg.menu_index, *final(self)),
            final(self)@.extends(old(self)@),
            final(self).window() == old(self).window(),
            final(self).events() == old(self).events(),
            !old(self)@.callbacks.contains_key(msg.menu_index) ==> *final(self) == *old(self),
    {
        broadcast use vstd::std_specs::hash::group_hash_axioms;

        if self.callback.contains_key(&msg.menu_index) {
            let f = self.callback.remove(&msg.menu_index).unwrap();
            assert(self@ == old(self)@.without(msg.menu_index));
            let ghost taken = self@;
            f.invoke(self);
            let ghost returned = self@;
            self.callback.insert(msg.menu_index, f);
            assert(self@ == returned.with_callback(msg.menu_index, f));
            assert(f.effect(taken, returned));
        }
        proof {
            Self::lemma_dispatched_keeps_callback(*old(self), msg.menu_index, *self);
        }
    }

    /// Waits until the platform window reports an activation, and dispatches it.
    ///
    /// Fails with [`SystrayError::Disconnected`] once the window's end of the channel is
    /// gone and nothing is pending. The outcome dealt with is the one that a receive on
    /// the application's channel gave, and it is dealt with as
    /// [`Application::handle_recv`] says. Whatever it is, no registration is lost.
    pub fn wait_for_message(&mut self) -> (r: Result<(), SystrayError>)
        requires
            old(self).wf(),
        ensures
            final(self).wf(),
            exists|received: Result<SystrayEvent, RecvError>|
                {
                    &&& #[trigger] call_ensures(
                        Receiver::<SystrayEvent>::recv,
                        (&old(self).events(),),
                        received,
                    )
                    &&& match received {
                        Ok(msg) => {
                            &&& r is Ok
                            &&& Self::dispatched(*old(self), msg.menu_index, *final(self))
                        },
                        Err(_) => {
                            &&& r matches Err(e)
                            &&& e is Disconnected
                            &&& *final(self) == *old(self)
                        },
                    }
                },
            final(self)@.extends(old(self)@),
            final(self).window() == old(self).window(),
            final(self).events() == old(self).events(),
            match r {
                Ok(_) => exists|id: u32| Self::dispatched(*old(self), id, *final(self)),
                Err(e) => e is Disconnected && *final(self) == *old(self),
            },
    {
        let received = self.rx.recv();
        self.handle_recv(received)
    }

    /// Deals with the outcome of a blocking receive: an activation is dispatched, a
    /// failure is reported as [`SystrayError::Disconnected`].
    pub fn handle_recv(&mut self, received: Result<SystrayEvent, RecvError>) -> (r: Result<
        (),
        SystrayError,
    >)
        requires
            old(self).wf(),
        ensures
            final(self).wf(),
            final(self)@.extends(old(self)@),
            final(self).window() == old(self).window(),
            final(self).events() == old(self).events(),
            match received {
                Ok(msg) => r is Ok && Self::dispatched(*old(self), msg.menu_index, *final(self)),
                Err(_) => {
                    &&& r matches Err(e)
                    &&& e is Disconnected
                    &&& *final(self) == *old(self)
                },
            },
    {
        match received {
            Ok(msg) => {
                self.dispatch(msg);
                Ok(())
            },
            Err(e) => Err(SystrayError::from(e)),
        }
    }

    /// Waits for at most `timeout` until the platform window reports an activation, and
    /// dispatches it if one arrives.
    ///
    /// A wait that ends without an activation is a success: there was nothing to do.
    /// Fails with [`SystrayError::Disconnected`] once the window's end of the channel is
    /// gone and nothing is pending. The outcome dealt with is the one that a receive on
    /// the application's channel gave for this `timeout`, and it is dealt with as
    /// [`Application::handle_recv_timeout`] says. Whatever it is, no registration is
    /// lost.
    pub fn wait_for_message_timeout(&mut self, timeout: Duration) -> (r: Result<(), SystrayError>)
        requires
            old(self).wf(),
        ensures
            final(self).wf(),
            exists|received: Result<SystrayEvent, RecvTimeoutError>|
                {
                    &&& #[trigger] call_ensures(
                        Receiver::<SystrayEvent>::recv_timeout,
                        (&old(self).events(), timeout),
                        received,
                    )
                    &&& match received {
                        Ok(msg) => {
                            &&& r is Ok
                            &&& Self::dispatched(*old(self), msg.menu_index, *final(self))
                        },
                        Err(RecvTimeoutError::Timeout) => r is Ok && *final(self) == *old(self),
                        Err(RecvTimeoutError::Disconnected) => {
                            &&& r matches Err(e)
                            &&& e is Disconnected
                            &&& *final(self) == *old(self)
                        },
                    }
                },
            final(self)@.extends(old(self)@),
            final(self).window() == old(self).window(),
            final(self).events() == old(self).events(),
            match r {
                Ok(_) => {
                    ||| *final(self) == *old(self)
                    ||| exists|id: u32| Self::dispatched(*old(self), id, *final(self))
                },
                Err(e) => e is Disconnected && *final(self) == *old(self),
            },
    {
        let received = self.rx.recv_timeout(timeout);
        self.handle_recv_timeout(received)
    }

    /// Deals with the outcome of a timed receive: an activation is dispatched, a deadline
    /// that passed is no failure, and a channel without a producer is reported as
    /// [`SystrayError::Disconnected`].
    pub fn handle_recv_timeout(&mut self, received: Result<SystrayEvent, RecvTimeoutError>) -> (r:
        Result<(), SystrayError>)
        requires
            old(self).wf(),
        ensures
            final(self).wf(),
            final(self)@.extends(old(self)@),
            final(self).window() == old(self).window(),
            final(self).events() == old(self).events(),
            match received {
                Ok(msg) => r is Ok && Self::dispatched(*old(self), msg.menu_index, *final(self)),
                Err(RecvTimeoutError::Timeout) => r is Ok && *final(self) == *old(self),
                Err(RecvTimeoutError::Disconnected) => {
                    &&& r matches Err(e)
                    &&& e is Disconnected
                    &&& *final(self) == *old(self)
                },
            },
    {
        let msg = match received {
            Ok(msg) => Some(msg),
            Err(RecvTimeoutError::Timeout) => None,
            Err(e) => {
                return Err(SystrayError::from(e));
            },
        };
        match msg {
            Some(msg) => {
                self.dispatch(msg);
            },
            None => (),
        }
        Ok(())
    }
}

} // verus!
