//! The monitor of pull requests: what it knows, and what follows from what it is told.

use crate::actions;
use crate::config::{Config, ConfigView};
use crate::evidence;
use crate::github::{PrRef, PrRefView};
use crate::hotkeys;
use crate::model::{PrLabelView, PullRequestView, SnapshotView};
use crate::model::PullRequest;
use crate::store;
use crate::store::{ChangeView, Store, TablesView};
use crate::text;
use crate::text_map;
use crate::text_map::TextMap;
use crate::worker;
use crate::worker::action_worker::effects::{ActionCommandView, ContextView, EffectView};
use crate::worker::action_worker::{Coordinator, CoordinatorView};
use crate::worker::events::{BatchView, CommandView, Output, OutputView, PollResult, UiEventView};
use vstd::prelude::*;

verus! {

broadcast use vstd::seq_lib::group_seq_properties;

/// How many milliseconds pass between two lookups of the ignored pull requests.
pub const IGNORED_CHECK_INTERVAL: u64 = 900_000;

/// The longest time between two polls, in seconds.
pub const LONGEST_DELAY: u64 = 900;

/// The time when something is told: in seconds since the epoch, by a clock in milliseconds
/// that never goes back, and whether requests to GitHub are paused at that time.
#[derive(Clone, Copy, Debug)]
pub struct Time {
    pub now: i64,
    pub clock: u64,
    pub paused: bool,
}

/// What is known of the monitored pull requests, and what is under way.
pub struct Monitor {
    /// Whether this is a development build.
    pub dev: bool,
    pub config: Config,
    pub store: Store,
    pub actions: Coordinator,
    pub prs: TextMap<PullRequest>,
    pub references: Vec<PrRef>,
    /// Why the last poll failed, if it did.
    pub error: Option<String>,
    pub viewer: Option<String>,
    pub discovered_at: Option<u64>,
    /// When the next poll is due.
    pub deadline: u64,
    pub polling: bool,
    pub ignored_interval: u64,
    pub ignored_loading: bool,
    pub ignored_checked: bool,
    pub ignored_deadline: u64,
    pub ignored_requested: bool,
    pub rediscover_after_poll: bool,
    /// The pull requests of which the poll that is under way may not say anything.
    pub invalidated: TextMap<()>,
    /// How many polls failed one after the other.
    pub failures: u32,
    /// The notifications that are being delivered.
    pub in_flight: TextMap<()>,
    /// Those of them that are dismissed once they are delivered.
    pub dismiss_after_delivery: TextMap<()>,
    pub stopped: bool,
    /// What is asked for and not yet handed out.
    pub outputs: Vec<Output>,
}

/// The contents of a [`Monitor`].
#[verifier::ext_equal]
pub struct MonitorView {
    pub dev: bool,
    pub config: ConfigView,
    pub tables: TablesView,
    pub actions: CoordinatorView,
    pub prs: Map<Seq<char>, PullRequestView>,
    pub references: Seq<PrRefView>,
    pub error: Option<Seq<char>>,
    pub viewer: Option<Seq<char>>,
    pub discovered_at: Option<u64>,
    pub deadline: u64,
    pub polling: bool,
    pub ignored_interval: u64,
    pub ignored_loading: bool,
    pub ignored_checked: bool,
    pub ignored_deadline: u64,
    pub ignored_requested: bool,
    pub rediscover_after_poll: bool,
    pub invalidated: Set<Seq<char>>,
    pub failures: u32,
    pub in_flight: Set<Seq<char>>,
    pub dismiss_after_delivery: Set<Seq<char>>,
    pub stopped: bool,
    pub outputs: Seq<OutputView>,
}

impl View for Monitor {
    type V = MonitorView;

    open spec fn view(&self) -> MonitorView {
        MonitorView {
            dev: self.dev,
            config: self.config@,
            tables: self.store@,
            actions: self.actions@,
            prs: self.prs@,
            references: self.references.deep_view(),
            error: self.error.deep_view(),
            viewer: self.viewer.deep_view(),
            discovered_at: self.discovered_at,
            deadline: self.deadline,
            polling: self.polling,
            ignored_interval: self.ignored_interval,
            ignored_loading: self.ignored_loading,
            ignored_checked: self.ignored_checked,
            ignored_deadline: self.ignored_deadline,
            ignored_requested: self.ignored_requested,
            rediscover_after_poll: self.rediscover_after_poll,
            invalidated: self.invalidated@.dom(),
            failures: self.failures,
            in_flight: self.in_flight@.dom(),
            dismiss_after_delivery: self.dismiss_after_delivery@.dom(),
            stopped: self.stopped,
            outputs: self.outputs.deep_view(),
        }
    }
}

/// A time some milliseconds after another one.
pub open spec fn later(clock: u64, milliseconds: u64) -> u64 {
    if clock + milliseconds > u64::MAX {
        u64::MAX
    } else {
        (clock + milliseconds) as u64
    }
}

/// The milliseconds from one time to another.
pub open spec fn since(clock: u64, at: u64) -> nat {
    if clock < at {
        0
    } else {
        (clock - at) as nat
    }
}

/// By how much the time between two polls grows after failures.
pub open spec fn backoff(failures: u32) -> nat {
    if failures == 0 {
        1
    } else if failures == 1 {
        2
    } else if failures == 2 {
        4
    } else if failures == 3 {
        8
    } else if failures == 4 {
        16
    } else {
        32
    }
}

/// The seconds until the next poll.
pub open spec fn poll_delay(poll_seconds: u64, failures: u32) -> nat {
    let delay = poll_seconds as nat * backoff(failures);
    if delay < LONGEST_DELAY {
        delay
    } else {
        LONGEST_DELAY as nat
    }
}

/// References of pull requests other than one.
pub open spec fn references_without(references: Seq<PrRefView>, id: Seq<char>) -> Seq<PrRefView>
    decreases references.len(),
{
    if references.len() == 0 {
        Seq::empty()
    } else if references.last().id == id {
        references_without(references.drop_last(), id)
    } else {
        references_without(references.drop_last(), id).push(references.last())
    }
}

/// References of pull requests that are not ignored.
pub open spec fn references_not_in(references: Seq<PrRefView>, ignored: Set<Seq<char>>) -> Seq<PrRefView>
    decreases references.len(),
{
    if references.len() == 0 {
        Seq::empty()
    } else if ignored.contains(references.last().id) {
        references_not_in(references.drop_last(), ignored)
    } else {
        references_not_in(references.drop_last(), ignored).push(references.last())
    }
}

/// The identities of references.
pub open spec fn reference_ids(references: Seq<PrRefView>) -> Set<Seq<char>> {
    Set::new(|id: Seq<char>| exists|i: int| 0 <= i < references.len() && (#[trigger] references[i]).id == id)
}

/// The references of pull requests.
pub open spec fn references_of(prs: Seq<PullRequestView>) -> Seq<PrRefView> {
    prs.map_values(
        |pr: PullRequestView| PrRefView { id: pr.snapshot.id, repo: pr.snapshot.repo, number: pr.snapshot.number },
    )
}

/// Pull requests by their identities. Of two with one identity the later one counts.
pub open spec fn by_identity(prs: Seq<PullRequestView>, ignored: Map<Seq<char>, ()>) -> Map<Seq<char>, PullRequestView>
    decreases prs.len(),
{
    if prs.len() == 0 {
        Map::empty()
    } else {
        let before = by_identity(prs.drop_last(), ignored);
        let pr = prs.last();
        if ignored.contains_key(pr.snapshot.id) {
            before
        } else {
            before.insert(pr.snapshot.id, pr)
        }
    }
}

/// Labels without those of a name.
pub open spec fn labels_without(labels: Seq<PrLabelView>, name: Seq<char>) -> Seq<PrLabelView>
    decreases labels.len(),
{
    if labels.len() == 0 {
        Seq::empty()
    } else if labels.last().name == name {
        labels_without(labels.drop_last(), name)
    } else {
        labels_without(labels.drop_last(), name).push(labels.last())
    }
}

/// A pull request with a label, or without it.
pub open spec fn with_label(pr: PullRequestView, label: PrLabelView, selected: bool) -> PullRequestView {
    let others = labels_without(pr.snapshot.labels, label.name);
    PullRequestView {
        snapshot: SnapshotView {
            labels: if selected {
                others.push(label)
            } else {
                others
            },
            ..pr.snapshot
        },
        ..pr
    }
}

/// What is known of ignored pull requests once some were looked up.
pub open spec fn looked_up(tables: TablesView, snapshots: Seq<SnapshotView>) -> TablesView
    decreases snapshots.len(),
{
    if snapshots.len() == 0 {
        tables
    } else {
        let before = looked_up(tables, snapshots.drop_last());
        let snapshot = snapshots.last();
        if before.ignored.contains_key(snapshot.id) {
            TablesView {
                details: before.details.insert(
                    snapshot.id,
                    store::with_status(
                        if before.details.contains_key(snapshot.id) {
                            Some(before.details[snapshot.id])
                        } else {
                            None
                        },
                        snapshot,
                    ),
                ),
                ..before
            }
        } else {
            before
        }
    }
}

/// The title of the notification of an update.
pub open spec fn notice_title(pr: PullRequestView) -> Seq<char> {
    pr.snapshot.repo + " #"@ + text::decimal_of(pr.snapshot.number as nat) + " · "@ + pr.state.label_text()
}

/// The identity of the notification of an error.
pub open spec fn error_notice_id(message: Seq<char>) -> Seq<char> {
    "gopher-error-"@ + evidence::hash_of(vstd::utf8::encode_utf8(message))
}

impl MonitorView {
    /// Something is asked for.
    pub open spec fn asking(self, output: OutputView) -> MonitorView {
        MonitorView { outputs: self.outputs.push(output), ..self }
    }

    /// Something is shown.
    pub open spec fn showing(self, event: UiEventView) -> MonitorView {
        self.asking(OutputView::Ui(event))
    }

    /// What the coordinator of changes looks at.
    pub open spec fn context(self, t: Time) -> ContextView {
        ContextView {
            catalogues: self.tables.catalogues,
            prs: self.prs,
            viewer: self.viewer,
            config: self.config,
            now: t.now,
            clock: t.clock,
            paused: t.paused,
        }
    }

    /// The active pull requests are shown.
    pub open spec fn showing_prs(self) -> MonitorView {
        self.showing(
            UiEventView::Updated {
                prs: text_map::values_in_order(self.prs),
                error: self.error,
                loading: self.polling,
            },
        )
    }

    /// The ignored pull requests are shown.
    pub open spec fn showing_ignored(self, error: Option<Seq<char>>, loading: bool) -> MonitorView {
        self.showing(
            UiEventView::IgnoredUpdated {
                prs: store::shown_ignored(text_map::sorted_keys(self.tables.ignored.dom()), self.tables.details),
                error,
                loading,
            },
        )
    }

    /// Notifications are dismissed: those that are being delivered, once they are.
    pub open spec fn dismissing(self, ids: Seq<Seq<char>>) -> MonitorView {
        MonitorView {
            dismiss_after_delivery: self.dismiss_after_delivery.union(
                Set::new(|id: Seq<char>| ids.contains(id) && self.in_flight.contains(id)),
            ),
            ..self
        }.showing(UiEventView::DismissNotifications(ids))
    }

    /// A new discovery is wanted at once.
    pub open spec fn refreshed(self, t: Time) -> MonitorView {
        MonitorView { deadline: t.clock, discovered_at: None, ..self }
    }

    /// The poll that is under way may not say anything of a pull request.
    pub open spec fn invalidating(self, id: Seq<char>) -> MonitorView {
        if self.polling {
            MonitorView { invalidated: self.invalidated.insert(id), rediscover_after_poll: true, ..self }
        } else {
            self
        }
    }

    /// A label was changed on GitHub: the pull request has it, or no longer, and the poll
    /// that was begun before does not undo that.
    pub open spec fn label_saved(
        self,
        pr: Seq<char>,
        viewer: Seq<char>,
        label: PrLabelView,
        selected: bool,
        t: Time,
    ) -> MonitorView {
        if self.viewer != Some(viewer) || !self.prs.contains_key(pr) {
            self
        } else {
            let next = with_label(self.prs[pr], label, selected);
            let known = MonitorView {
                prs: self.prs.insert(pr, next),
                tables: TablesView { prs: self.tables.prs.insert(next.snapshot.id, next), ..self.tables },
                actions: CoordinatorView {
                    completed_labels: if self.actions.completed_labels.contains_key(pr) {
                        self.actions.completed_labels.insert(pr, self.actions.completed_labels[pr].remove(label.name))
                    } else {
                        self.actions.completed_labels
                    },
                    ..self.actions
                },
                ..self
            };
            MonitorView { deadline: t.clock, ..known.invalidating(pr) }
        }
    }

    /// What the coordinator of changes asks for is done, or handed on.
    pub open spec fn absorbing(self, effect: EffectView, t: Time) -> MonitorView {
        match effect {
            EffectView::Publish(state) => self.showing(UiEventView::ActionsChanged(state)),
            EffectView::LabelRequestHandled => self.showing(UiEventView::LabelRequestHandled),
            EffectView::SaveCatalogue { viewer, repo, catalogue } => MonitorView {
                tables: TablesView {
                    catalogues: self.tables.catalogues.insert(
                        viewer,
                        store::catalogues_of(self.tables.catalogues, viewer).insert(
                            actions::repo_key_of(repo),
                            catalogue,
                        ),
                    ),
                    ..self.tables
                },
                ..self
            },
            EffectView::Refresh => self.refreshed(t),
            EffectView::LabelSaved { pr, viewer, label, selected } => self.label_saved(pr, viewer, label, selected, t),
            _ => self.asking(OutputView::Work(effect)),
        }
    }

    /// All that the coordinator of changes asks for is done, or handed on.
    pub open spec fn absorbing_all(self, effects: Seq<EffectView>, t: Time) -> MonitorView
        decreases effects.len(),
    {
        if effects.len() == 0 {
            self
        } else {
            self.absorbing_all(effects.drop_last(), t).absorbing(effects.last(), t)
        }
    }

    /// The coordinator of changes is another one, and what it asks for is done, or handed
    /// on.
    pub open spec fn with_actions(self, next: CoordinatorView, t: Time) -> MonitorView {
        MonitorView { actions: CoordinatorView { effects: Seq::empty(), ..next }, ..self }.absorbing_all(next.effects, t)
    }

    /// What is pending agrees again with what is known, and that is shown.
    pub open spec fn settled(self, t: Time) -> MonitorView {
        self.with_actions(self.actions.reconciled(self.context(t)), t).showing_prs().stopping_if_done()
    }

    /// After a shutdown was begun, the monitor stops as soon as nothing that was sent is
    /// waited for.
    pub open spec fn stopping_if_done(self) -> MonitorView {
        if self.actions.stopping && !self.actions.awaits_answers() && !self.stopped {
            MonitorView { stopped: true, ..self }.showing(UiEventView::Stopped)
        } else {
            self
        }
    }

    // ------------------------------------------------------------ polls

    /// Whether pull requests are to be discovered anew.
    pub open spec fn wants_discovery(self, t: Time) -> bool {
        match self.discovered_at {
            None => true,
            Some(at) => since(t.clock, at) / 1000 >= self.config.discovery_seconds,
        }
    }

    /// A poll begins.
    pub open spec fn poll_begun(self, t: Time) -> MonitorView {
        let next = MonitorView { polling: true, ..self };
        next.showing_prs().asking(
            OutputView::Poll {
                references: self.references,
                discover: self.wants_discovery(t),
                viewer: self.viewer,
                ignored: text_map::sorted_keys(self.tables.ignored.dom()),
            },
        )
    }

    /// A poll has failed as a whole: everything that is known is stale.
    pub open spec fn all_stale(self) -> MonitorView {
        MonitorView { prs: self.prs.map_values(|pr: PullRequestView| store::as_stale(pr)), ..self }
    }

    /// An account has answered.
    pub open spec fn for_viewer(self, viewer: Seq<char>) -> MonitorView {
        MonitorView {
            tables: self.tables.with_viewer(viewer),
            prs: if self.tables.is_other_viewer(viewer) {
                Map::empty()
            } else {
                self.prs
            },
            in_flight: if self.tables.is_other_viewer(viewer) {
                Set::empty()
            } else {
                self.in_flight
            },
            viewer: Some(viewer),
            ..self
        }
    }

    /// The pull requests that are monitored are others. After a discovery only those stay.
    pub open spec fn with_references(self, references: Seq<PrRefView>, discovered: bool, t: Time) -> MonitorView {
        let kept = references_not_in(references, self.tables.ignored.dom());
        let next = MonitorView { references: kept, ..self };
        if discovered {
            MonitorView {
                discovered_at: Some(t.clock),
                prs: self.prs.restrict(reference_ids(kept)),
                tables: self.tables.retained(reference_ids(kept)),
                ..next
            }
        } else {
            next
        }
    }

    /// An update is announced, where that is wanted and was not done before.
    pub open spec fn announcing(self, pr: PullRequestView) -> MonitorView {
        if !self.config.notifications || !pr.wants_attention() {
            self
        } else {
            let next = MonitorView { tables: self.tables.announced(pr), ..self };
            if self.tables.may_announce(pr) && !self.in_flight.contains(store::notice_id(pr)) {
                MonitorView { in_flight: self.in_flight.insert(store::notice_id(pr)), ..next }.showing(
                    UiEventView::Notify {
                        review: true,
                        id: store::notice_id(pr),
                        title: notice_title(pr),
                        body: pr.snapshot.title,
                    },
                )
            } else {
                next
            }
        }
    }

    /// A new snapshot of a pull request has come.
    pub open spec fn with_snapshot(self, id: Seq<char>, snapshot: SnapshotView, t: Time) -> MonitorView {
        let pr = worker::next_state(
            snapshot,
            if self.prs.contains_key(id) {
                Some(self.prs[id])
            } else {
                None
            },
            self.config.expected_in(snapshot.repo),
            t.now,
            self.config.settle_seconds,
        );
        let saved = MonitorView {
            tables: TablesView { prs: self.tables.prs.insert(pr.snapshot.id, pr), ..self.tables },
            ..self
        };
        let announced = saved.announcing(pr);
        MonitorView { prs: announced.prs.insert(id, pr), ..announced }
    }

    /// A poll has brought something of a pull request. Of one that is ignored, or of which the
    /// poll may not say anything, nothing is taken.
    pub open spec fn with_result(self, result: PollResult, t: Time) -> MonitorView {
        let (id, outcome) = result;
        if self.tables.ignored.contains_key(id) || self.invalidated.contains(id) {
            self
        } else {
            match outcome {
                Err(message) => if self.prs.contains_key(id) {
                    MonitorView {
                        prs: self.prs.insert(
                            id,
                            PullRequestView { stale: true, error: Some(message), ..self.prs[id] },
                        ),
                        ..self
                    }
                } else {
                    self
                },
                Ok(snapshot) => if !snapshot.open {
                    MonitorView {
                        prs: self.prs.remove(id),
                        references: references_without(self.references, id),
                        ..self
                    }
                } else {
                    self.with_snapshot(id, snapshot, t)
                },
            }
        }
    }

    /// A poll has brought something of several pull requests.
    pub open spec fn with_results(self, results: Seq<PollResult>, t: Time) -> MonitorView
        decreases results.len(),
    {
        if results.len() == 0 {
            self
        } else {
            self.with_results(results.drop_last(), t).with_result(results.last(), t)
        }
    }

    /// The last error among results of which something was taken. That a pull request changed
    /// while it was fetched is none.
    pub open spec fn results_error(self, results: Seq<PollResult>) -> Option<Seq<char>>
        decreases results.len(),
    {
        if results.len() == 0 {
            None
        } else {
            let (id, outcome) = results.last();
            let taken = !self.tables.ignored.contains_key(id) && !self.invalidated.contains(id);
            if taken && outcome is Err && !"PR changed"@.is_prefix_of(outcome->Err_0) {
                Some(outcome->Err_0)
            } else {
                self.results_error(results.drop_last())
            }
        }
    }

    /// The outcome of a poll is known: an error that is another one is announced, and the
    /// next poll is planned.
    pub open spec fn poll_over(self, error: Option<Seq<char>>, t: Time) -> MonitorView {
        let announced = if error != self.error && error is Some {
            self.showing(
                UiEventView::Notify {
                    review: false,
                    id: error_notice_id(error->0),
                    title: "Gopher needs attention"@,
                    body: error->0,
                },
            )
        } else {
            self
        };
        let failures = if error is None {
            0u32
        } else if self.failures == u32::MAX {
            u32::MAX
        } else {
            (self.failures + 1) as u32
        };
        let planned = MonitorView {
            error,
            failures,
            deadline: later(t.clock, (poll_delay(self.config.poll_seconds, failures) * 1000) as u64),
            invalidated: Set::empty(),
            ..announced
        };
        if self.rediscover_after_poll {
            MonitorView { rediscover_after_poll: false, ..planned.refreshed(t) }
        } else {
            planned
        }
    }

    /// A poll was completed.
    pub open spec fn poll_done(self, batch: BatchView, t: Time) -> MonitorView {
        let start = MonitorView { polling: false, ..self }.for_viewer(batch.viewer).with_references(
            batch.references,
            batch.discovered,
            t,
        );
        let taken = start.with_results(batch.results, t);
        MonitorView { tables: taken.tables.retained(taken.prs.dom()), ..taken }.poll_over(
            start.results_error(batch.results),
            t,
        )
    }

    /// The catalogues of labels that are due are asked for, unless a shutdown was begun.
    pub open spec fn with_catalogues(self, t: Time) -> MonitorView {
        if self.actions.stopping {
            self
        } else {
            let agreed = self.with_actions(self.actions.reconciled(self.context(t)), t);
            agreed.with_actions(agreed.actions.refreshing(agreed.context(t), None), t)
        }
    }

    // ------------------------------------------------------------ what the user does

    /// An update is acknowledged, or that is withdrawn.
    pub open spec fn acknowledged(self, id: Seq<char>, update: Seq<char>, checked: bool) -> MonitorView {
        if !self.prs.contains_key(id) || self.prs[id].update_id != update {
            self
        } else {
            let pr = store::acknowledged(self.prs[id], update, checked);
            let next = MonitorView {
                prs: self.prs.insert(id, pr),
                tables: TablesView { prs: self.tables.prs.insert(pr.snapshot.id, pr), ..self.tables },
                ..self
            };
            if checked {
                next.dismissing(store::notice_ids(self.tables.notices, pr.snapshot.id, Some(update)))
            } else {
                next
            }
        }
    }

    /// A pull request is ignored.
    pub open spec fn ignoring(self, id: Seq<char>) -> MonitorView {
        let next = MonitorView {
            tables: self.tables.with_ignored(id),
            ignored_checked: false,
            invalidated: if self.polling {
                self.invalidated.insert(id)
            } else {
                self.invalidated
            },
            prs: self.prs.remove(id),
            references: references_without(self.references, id),
            ..self
        }.dismissing(store::notice_ids(self.tables.notices, id, None));
        if self.ignored_requested {
            next.showing_ignored(None, self.ignored_loading)
        } else {
            next
        }
    }

    /// A pull request is no longer ignored.
    pub open spec fn restoring(self, id: Seq<char>, t: Time) -> MonitorView {
        let next = MonitorView { tables: self.tables.with_restored(id), ..self };
        let planned = if self.tables.ignored.contains_key(id) {
            next.invalidating(id).refreshed(t)
        } else {
            next
        };
        planned.showing_ignored(None, self.ignored_loading)
    }

    /// The user acts on a notification.
    pub open spec fn notification_used(self, id: Seq<char>, open: bool, reveal: bool) -> MonitorView {
        match store::notice_of(self.tables.notices, id) {
            None => self,
            Some(notice) => if open {
                self.showing(UiEventView::Open { url: notice.url, pr: notice.pr, update: notice.update })
            } else {
                let known = if self.prs.contains_key(notice.pr) && self.prs[notice.pr].update_id == notice.update {
                    let pr = store::acknowledged(self.prs[notice.pr], notice.update, true);
                    MonitorView {
                        prs: self.prs.insert(notice.pr, pr),
                        tables: TablesView { prs: self.tables.prs.insert(pr.snapshot.id, pr), ..self.tables },
                        ..self
                    }
                } else {
                    self
                };
                let dismissed = known.dismissing(seq![id]);
                if reveal {
                    dismissed.showing(
                        UiEventView::ShowPopover {
                            pr: if self.prs.contains_key(notice.pr) {
                                Some(notice.pr)
                            } else {
                                None
                            },
                        },
                    )
                } else {
                    dismissed
                }
            },
        }
    }

    /// A notification was delivered.
    pub open spec fn notification_delivered(self, id: Seq<char>) -> MonitorView {
        let next = MonitorView {
            tables: self.tables.after(ChangeView::Deliver(id)),
            in_flight: self.in_flight.remove(id),
            dismiss_after_delivery: self.dismiss_after_delivery.remove(id),
            ..self
        };
        if self.dismiss_after_delivery.contains(id) {
            next.showing(UiEventView::DismissNotifications(seq![id]))
        } else {
            next
        }
    }

    /// A notification could not be delivered.
    pub open spec fn notification_failed(self, id: Seq<char>) -> MonitorView {
        MonitorView {
            in_flight: self.in_flight.remove(id),
            dismiss_after_delivery: self.dismiss_after_delivery.remove(id),
            ..self
        }
    }

    // ------------------------------------------------------------ ignored pull requests

    /// A lookup of the ignored pull requests begins.
    pub open spec fn lookup_begun(self, t: Time) -> MonitorView {
        MonitorView { ignored_loading: true, ignored_deadline: later(t.clock, self.ignored_interval), ..self }.asking(
            OutputView::LookUp(text_map::sorted_keys(self.tables.ignored.dom())),
        ).showing_ignored(None, true)
    }

    /// Ignored pull requests were looked up.
    pub open spec fn lookup_done(self, found: Result<Seq<SnapshotView>, Seq<char>>, t: Time) -> MonitorView {
        let next = MonitorView {
            ignored_loading: false,
            ignored_deadline: later(t.clock, self.ignored_interval),
            ignored_checked: found is Ok,
            ..self
        };
        match found {
            Ok(snapshots) => MonitorView { tables: looked_up(self.tables, snapshots), ..next }.showing_ignored(None, false),
            Err(message) => next.showing_ignored(Some(message), false),
        }
    }

    /// The user wants to see the ignored pull requests. Until they were looked up once, the
    /// next lookup is due.
    pub open spec fn ignored_wanted(self, t: Time) -> MonitorView {
        let next = MonitorView { ignored_requested: true, ..self };
        let planned = if !self.ignored_checked && !self.ignored_loading {
            MonitorView { ignored_deadline: t.clock, ..next }
        } else {
            next
        };
        planned.showing_ignored(None, self.ignored_loading)
    }

    // ------------------------------------------------------------ shortcuts

    /// Shortcuts are to be kept, if they are sound.
    pub open spec fn hotkeys_chosen(self, preferences: hotkeys::PreferencesView) -> MonitorView {
        match hotkeys::fault_of(preferences, self.dev) {
            Some(message) => self.showing(UiEventView::HotkeysSaved(Err(message))),
            None => self.asking(OutputView::WriteHotkeys(preferences)),
        }
    }

    /// Shortcuts were written down, or not.
    pub open spec fn hotkeys_written(
        self,
        preferences: hotkeys::PreferencesView,
        result: Result<(), Seq<char>>,
    ) -> MonitorView {
        let next = if result is Ok {
            MonitorView { tables: TablesView { hotkeys: preferences, ..self.tables }, ..self }
        } else {
            self
        };
        next.showing(UiEventView::HotkeysSaved(result))
    }

    // ------------------------------------------------------------ everything

    /// The preferences of a repository that were just written down are kept.
    pub open spec fn keeping(self, command: ActionCommandView) -> MonitorView {
        match command {
            ActionCommandView::Configured { repo, preferences, saved: Ok(_) } => MonitorView {
                tables: TablesView {
                    actions: self.tables.actions.insert(actions::repo_key_of(repo), preferences),
                    ..self.tables
                },
                ..self
            },
            _ => self,
        }
    }

    /// What was told is taken in.
    pub open spec fn told(self, command: CommandView, t: Time) -> MonitorView {
        match command {
            CommandView::PrAction(command) => {
                let kept = self.keeping(command);
                kept.with_actions(kept.actions.handled(command, kept.context(t)), t)
            },
            CommandView::LabelSaved { pr, viewer, label, selected } => self.label_saved(pr, viewer, label, selected, t),
            CommandView::Refresh => self.refreshed(t),
            CommandView::Poll => self,
            CommandView::Acknowledge { pr, update, checked } => self.acknowledged(pr, update, checked),
            CommandView::Ignore(id) => self.ignoring(id),
            CommandView::ShowIgnored => self.ignored_wanted(t),
            CommandView::CheckIgnored => self.lookup_begun(t),
            CommandView::Restore(id) => self.restoring(id, t),
            CommandView::IgnoredDetailsLoaded(found) => self.lookup_done(found, t),
            CommandView::NotificationAction { id, open, reveal } => self.notification_used(id, open, reveal),
            CommandView::NotificationDelivered(id) => self.notification_delivered(id),
            CommandView::NotificationFailed(id) => self.notification_failed(id),
            CommandView::SaveHotkeys(preferences) => self.hotkeys_chosen(preferences),
            CommandView::HotkeysWritten { preferences, result } => self.hotkeys_written(preferences, result),
            CommandView::Shutdown => MonitorView { actions: self.actions.shut_down(), ..self },
            CommandView::PollComplete(Err(message)) => MonitorView { polling: false, ..self }.all_stale().poll_over(
                Some(message),
                t,
            ),
            CommandView::PollComplete(Ok(batch)) => self.poll_done(batch, t).with_catalogues(t),
        }
    }

    /// The monitor after it was told something.
    pub open spec fn stepped(self, command: CommandView, t: Time) -> MonitorView {
        match command {
            CommandView::Poll => if self.polling || self.actions.stopping {
                self
            } else {
                self.poll_begun(t)
            },
            CommandView::CheckIgnored if self.ignored_loading => self,
            CommandView::CheckIgnored if self.tables.ignored == Map::<Seq<char>, ()>::empty() => MonitorView {
                ignored_deadline: later(t.clock, self.ignored_interval),
                ..self
            },
            _ => self.told(command, t).settled(t),
        }
    }

    /// Whether a poll is due.
    pub open spec fn poll_due(self, clock: u64) -> bool {
        !self.polling && !self.actions.stopping && self.deadline <= clock
    }

    /// Whether a lookup of the ignored pull requests is due.
    pub open spec fn lookup_due(self, clock: u64) -> bool {
        !self.ignored_loading && !self.actions.stopping && self.ignored_deadline <= clock
    }

    /// A monitor that takes up what is kept.
    pub open spec fn taking_up(
        dev: bool,
        config: ConfigView,
        tables: TablesView,
        ignored_interval: u64,
        clock: u64,
    ) -> MonitorView {
        let prs = by_identity(
            text_map::values_in_order(tables.prs).map_values(|pr: PullRequestView| store::as_stale(pr)),
            tables.ignored,
        );
        MonitorView {
            dev,
            config,
            tables,
            actions: CoordinatorView::taking_up(tables),
            prs,
            references: references_of(text_map::values_in_order(prs)),
            error: None,
            viewer: tables.viewer,
            discovered_at: None,
            deadline: clock,
            polling: false,
            ignored_interval,
            ignored_loading: false,
            ignored_checked: false,
            ignored_deadline: clock,
            ignored_requested: false,
            rediscover_after_poll: false,
            invalidated: Set::empty(),
            failures: 0,
            in_flight: Set::empty(),
            dismiss_after_delivery: Set::empty(),
            stopped: false,
            outputs: Seq::empty(),
        }
    }

    /// What a monitor shows first.
    pub open spec fn greeting(self) -> MonitorView {
        self.showing(
            UiEventView::HotkeysLoaded {
                preferences: if hotkeys::fault_of(self.tables.hotkeys, self.dev) is None {
                    self.tables.hotkeys
                } else {
                    hotkeys::nothing_chosen()
                },
                error: hotkeys::fault_of(self.tables.hotkeys, self.dev),
            },
        ).showing(UiEventView::ActionsChanged(self.actions.state)).showing_prs()
    }
}

} // verus!
