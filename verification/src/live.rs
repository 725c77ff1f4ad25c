//! What the server reports while the browser runs.
use vstd::prelude::*;
use vstd::string::*;
use crate::action::{Action, ActionModel, AfterLists, AfterListsModel};
use crate::items::opt_text;
use crate::socket::{WsEvent, WsEventModel};
use crate::state::{Browser, ListsTableBrowser, Panel};
use crate::text::{concat2, occurs_at, same_text, starts_with};
use crate::valid::law_poll_keeps_wf;

verus! {

/// What reported events hold.
pub open spec fn event_models(events: Seq<WsEvent>) -> Seq<WsEventModel> {
    Seq::new(events.len(), |i: int| events[i]@)
}

/// Whether an event changes a list itself rather than its items.
pub open spec fn changes_lists(event: WsEventModel) -> bool {
    event matches WsEventModel::ListUpdate { action, .. } && occurs_at(action, "list-"@, 0)
}

/// The last event once the channel has closed.
pub open spec fn channel_closed() -> WsEventModel {
    WsEventModel::Disconnected("Channel closed"@)
}

/// The events to handle: those that were read, and one more where the channel has closed.
pub open spec fn with_closing(events: Seq<WsEventModel>, closed: bool) -> Seq<WsEventModel> {
    if closed {
        events.push(channel_closed())
    } else {
        events
    }
}

impl Browser {
    /// The state after an event: whether the connection stands, and a message that says so.
    pub open spec fn live_event(self, event: WsEventModel) -> Browser {
        match event {
            WsEventModel::Connected => Browser { ws_connected: true, ..self }.with_status(
                "🔗 Connected"@,
            ),
            WsEventModel::Disconnected(reason) => Browser {
                ws_connected: false,
                ws_open: self.ws_open && event != channel_closed(),
                ..self
            }.with_status("⚠ "@ + reason),
            WsEventModel::ListUpdate { .. } => self,
        }
    }

    /// The state after some events.
    pub open spec fn live_events(self, events: Seq<WsEventModel>) -> Browser
        decreases events.len(),
    {
        if events.len() == 0 {
            self
        } else {
            self.live_events(events.drop_last()).live_event(events.last())
        }
    }

    /// What happened to the list that is shown, where an event is about that.
    pub open spec fn news(self, event: WsEventModel) -> Option<Seq<char>> {
        match (event, self.selected_list()) {
            (WsEventModel::ListUpdate { list_id, action }, Some(list)) => if list.id == list_id
                && self.view == Panel::Items {
                Some(action)
            } else {
                None
            },
            _ => None,
        }
    }

    /// What happened last to the list that is shown.
    pub open spec fn last_news(self, events: Seq<WsEventModel>) -> Option<Seq<char>>
        decreases events.len(),
    {
        if events.len() == 0 {
            None
        } else if self.news(events.last()) is Some {
            self.news(events.last())
        } else {
            self.last_news(events.drop_last())
        }
    }

    /// Handles the events that were read from the channel: loads the lists again where one has
    /// changed, and the items where those of the list that is shown have. Once the channel has
    /// closed nothing is handled any more.
    pub open spec fn poll_ws_events(self, events: Seq<WsEventModel>, closed: bool) -> (
        Browser,
        ActionModel,
    ) {
        if !self.ws_open {
            (self, ActionModel::Idle)
        } else {
            let all = with_closing(events, closed);
            let after = self.live_events(all);
            let lists = exists|i: int| 0 <= i < all.len() && changes_lists(#[trigger] all[i]);
            match self.last_news(all) {
                Some(action) => if lists {
                    (after, after.refresh_lists(AfterListsModel::Announce("↻ "@ + action)))
                } else {
                    after.load_items(Some("↻ "@ + action))
                },
                None => if lists {
                    (after, after.refresh_lists(AfterListsModel::Stop))
                } else {
                    (after, ActionModel::Idle)
                },
            }
        }
    }
}

/// Events change neither the lists nor what is shown, but only the connection and the message.
pub proof fn law_events_change_only_the_connection(b: Browser, events: Seq<WsEventModel>)
    ensures
        b.live_events(events) == (Browser {
            ws_connected: b.live_events(events).ws_connected,
            ws_open: b.live_events(events).ws_open,
            status_message: b.live_events(events).status_message,
            ..b
        }),
    decreases events.len(),
{
    if events.len() > 0 {
        law_events_change_only_the_connection(b, events.drop_last());
    }
}

/// Once the channel has closed, nothing is handled any more: the state stays as it is.
pub proof fn law_closed_channel_stays_closed(
    b: Browser,
    events: Seq<WsEventModel>,
    later: Seq<WsEventModel>,
    closed: bool,
)
    ensures
        ({
            let after = b.poll_ws_events(events, true).0;
            &&& !after.ws_open
            &&& after.poll_ws_events(later, closed) == (after, ActionModel::Idle)
        }),
{
    if b.ws_open {
        let all = with_closing(events, true);
        assert(all.last() == channel_closed());
        assert(all.len() > 0);
        let after = b.live_events(all);
        assert(!after.ws_open);
    }
}

impl ListsTableBrowser {
    /// Handles one event, and says what happened to the list that is shown, where it is about
    /// that.
    fn live_event(&mut self, event: WsEvent) -> (r: Option<String>)
        ensures
            final(self)@ == old(self)@.live_event(event@),
            opt_text(r) == old(self)@.news(event@),
    {
        match event {
            WsEvent::Connected => {
                self.ws_connected = true;
                self.status_message = Some("🔗 Connected".to_owned());
                None
            },
            WsEvent::Disconnected(reason) => {
                self.ws_connected = false;
                if same_text(reason.as_str(), "Channel closed") {
                    self.ws_open = false;
                }
                self.status_message = Some(concat2("⚠ ", reason.as_str()));
                None
            },
            WsEvent::ListUpdate { list_id, action } => {
                match self.selected_list() {
                    Some(list) => {
                        if same_text(list.id.as_str(), list_id.as_str()) && self.view
                            == Panel::Items {
                            Some(action)
                        } else {
                            None
                        }
                    },
                    None => None,
                }
            },
        }
    }

    /// Handles the events that were read from the channel, and whether it has closed.
    pub fn poll_ws_events(&mut self, events: Vec<WsEvent>, closed: bool) -> (r: Action)
        ensures
            (final(self)@, r@) == old(self)@.poll_ws_events(event_models(events@), closed),
            old(self)@.wf() ==> final(self)@.wf(),
    {
        proof {
            if self@.wf() {
                law_poll_keeps_wf(self@, event_models(events@), closed);
            }
        }
        if !self.ws_open {
            return Action::Idle;
        }
        let ghost read = event_models(events@);
        let mut all = events;
        if closed {
            all.push(WsEvent::Disconnected("Channel closed".to_owned()));
        }
        let ghost models = with_closing(read, closed);
        let ghost queue = all@;
        proof {
            assert(event_models(queue) =~= models);
        }
        let mut lists = false;
        let mut news: Option<String> = None;
        for event in it: all
            invariant
                it.seq() == queue,
                event_models(queue) == models,
                self@ == old(self)@.live_events(models.take(it.index())),
                opt_text(news) == old(self)@.last_news(models.take(it.index())),
                lists == exists|i: int|
                    0 <= i < it.index() && changes_lists(#[trigger] models[i]),
        {
            let ghost k = it.index();
            proof {
                assert(models.take(k + 1).drop_last() =~= models.take(k));
                assert(models.take(k + 1).last() == models[k]);
                assert(models[k] == event@);
                law_events_change_only_the_connection(old(self)@, models.take(k));
                assert(self@.news(event@) == old(self)@.news(event@));
            }
            let touches_lists = match &event {
                WsEvent::ListUpdate { action, .. } => starts_with(action.as_str(), "list-"),
                _ => false,
            };
            if touches_lists {
                lists = true;
            }
            let latest = self.live_event(event);
            if latest.is_some() {
                news = latest;
            }
        }
        proof {
            assert(models.take(models.len() as int) =~= models);
        }
        match news {
            Some(action) => {
                let note = concat2("↻ ", action.as_str());
                if lists {
                    self.refresh_lists(AfterLists::Announce(note))
                } else {
                    self.load_items(Some(note))
                }
            },
            None => {
                if lists {
                    self.refresh_lists(AfterLists::Stop)
                } else {
                    Action::Idle
                }
            },
        }
    }
}

} // verus!
