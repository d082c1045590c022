//! How the monitor takes in what it is told.

use crate::actions;
use crate::config::Config;
use crate::evidence;
use crate::github::fields;
use crate::github::PrRef;
use crate::hotkeys;
use crate::model::{PrLabel, PullRequest, Snapshot};
use crate::store;
use crate::store::{Change, Store, TablesView};
use crate::text;
use crate::text_map;
use crate::text_map::TextMap;
use crate::worker;
use crate::worker::action_worker::effects::{ActionCommand, Context, Effect};
use crate::worker::action_worker::{Coordinator, CoordinatorView};
use crate::worker::events;
use crate::worker::events::{Batch, Command, Output, PollResult, UiEvent};
use crate::worker::monitor;
use crate::worker::monitor::{Monitor, MonitorView, Time, LONGEST_DELAY};
use vstd::prelude::*;

verus! {

broadcast use vstd::seq_lib::group_seq_properties;

/// A time some milliseconds after another one.
fn later(clock: u64, milliseconds: u64) -> (r: u64)
    ensures
        r == monitor::later(clock, milliseconds),
{
    clock.saturating_add(milliseconds)
}

/// The seconds until the next poll.
fn poll_delay(poll_seconds: u64, failures: u32) -> (r: u64)
    ensures
        r == monitor::poll_delay(poll_seconds, failures),
        r <= LONGEST_DELAY,
{
    let factor: u64 = if failures == 0 {
        1
    } else if failures == 1 {
        2
    } else if failures == 2 {
        4
    } else if failures == 3 {
        8
    } else if failures == 4 {
        16
    } else {
        32
    };
    if poll_seconds >= LONGEST_DELAY {
        assert(poll_seconds * factor >= poll_seconds) by (nonlinear_arith)
            requires
                factor >= 1,
        ;
        return LONGEST_DELAY;
    }
    assert(poll_seconds * factor <= 900 * 32) by (nonlinear_arith)
        requires
            poll_seconds <= 900,
            factor <= 32,
    ;
    let delay: u64 = poll_seconds * factor;
    if delay < LONGEST_DELAY {
        delay
    } else {
        LONGEST_DELAY
    }
}

/// References of pull requests other than one.
fn drop_reference(references: &Vec<PrRef>, id: &str) -> (r: Vec<PrRef>)
    ensures
        r.deep_view() == monitor::references_without(references.deep_view(), id@),
{
    let ghost v = references.deep_view();
    let mut r: Vec<PrRef> = Vec::new();
    let mut i: usize = 0;
    assert(v.take(0) =~= Seq::empty());
    assert(r.deep_view() =~= Seq::empty());
    while i < references.len()
        invariant
            v == references.deep_view(),
            i <= references@.len(),
            r.deep_view() == monitor::references_without(v.take(i as int), id@),
        decreases references.len() - i,
    {
        assert(v.take(i + 1).drop_last() =~= v.take(i as int));
        assert(v.take(i + 1).last() == references@[i as int]@);
        if !text::same(&references[i].id, id) {
            let ghost before = r.deep_view();
            r.push(references[i].clone());
            assert(r.deep_view() =~= before.push(v[i as int]));
        }
        i += 1;
    }
    assert(v.take(i as int) =~= v);
    r
}

/// References of pull requests that are not ignored.
fn active_references(references: &Vec<PrRef>, store: &Store) -> (r: Vec<PrRef>)
    ensures
        r.deep_view() == monitor::references_not_in(references.deep_view(), store@.ignored.dom()),
{
    let ghost v = references.deep_view();
    let mut r: Vec<PrRef> = Vec::new();
    let mut i: usize = 0;
    assert(v.take(0) =~= Seq::empty());
    assert(r.deep_view() =~= Seq::empty());
    while i < references.len()
        invariant
            v == references.deep_view(),
            i <= references@.len(),
            r.deep_view() == monitor::references_not_in(v.take(i as int), store@.ignored.dom()),
        decreases references.len() - i,
    {
        assert(v.take(i + 1).drop_last() =~= v.take(i as int));
        assert(v.take(i + 1).last() == references@[i as int]@);
        if !store.is_ignored(&references[i].id) {
            let ghost before = r.deep_view();
            r.push(references[i].clone());
            assert(r.deep_view() =~= before.push(v[i as int]));
        }
        i += 1;
    }
    assert(v.take(i as int) =~= v);
    r
}

/// The identities of references.
fn identities(references: &Vec<PrRef>) -> (r: TextMap<()>)
    ensures
        r@.dom() == monitor::reference_ids(references.deep_view()),
{
    let ghost v = references.deep_view();
    let mut r: TextMap<()> = TextMap::new();
    let mut i: usize = 0;
    while i < references.len()
        invariant
            v == references.deep_view(),
            i <= references@.len(),
            forall|id: Seq<char>| #[trigger]
                r@.contains_key(id) <==> exists|k: int| 0 <= k < i && (#[trigger] v[k]).id == id,
        decreases references.len() - i,
    {
        let ghost before = r@;
        r.insert(references[i].id.clone(), ());
        assert(v[i as int].id == references@[i as int].id@);
        assert forall|id: Seq<char>| #[trigger]
            r@.contains_key(id) <==> exists|k: int| 0 <= k < i + 1 && (#[trigger] v[k]).id == id by {
            if before.contains_key(id) {
            }
        }
        i += 1;
    }
    assert(r@.dom() =~= monitor::reference_ids(v));
    r
}

/// Labels without those of a name.
fn drop_label(labels: &Vec<PrLabel>, name: &str) -> (r: Vec<PrLabel>)
    ensures
        r.deep_view() == monitor::labels_without(labels.deep_view(), name@),
{
    let ghost v = labels.deep_view();
    let mut r: Vec<PrLabel> = Vec::new();
    let mut i: usize = 0;
    assert(v.take(0) =~= Seq::empty());
    assert(r.deep_view() =~= Seq::empty());
    while i < labels.len()
        invariant
            v == labels.deep_view(),
            i <= labels@.len(),
            r.deep_view() == monitor::labels_without(v.take(i as int), name@),
        decreases labels.len() - i,
    {
        assert(v.take(i + 1).drop_last() =~= v.take(i as int));
        assert(v.take(i + 1).last() == labels@[i as int]@);
        if !text::same(&labels[i].name, name) {
            let ghost before = r.deep_view();
            r.push(labels[i].clone());
            assert(r.deep_view() =~= before.push(v[i as int]));
        }
        i += 1;
    }
    assert(v.take(i as int) =~= v);
    r
}

/// The references of pull requests.
fn references_of(prs: &TextMap<PullRequest>) -> (r: Vec<PrRef>)
    ensures
        r.deep_view() == monitor::references_of(text_map::values_in_order(prs@)),
{
    let ghost all = monitor::references_of(text_map::values_in_order(prs@));
    let mut r: Vec<PrRef> = Vec::new();
    let count: usize = prs.len();
    let mut i: usize = 0;
    assert(r.deep_view() =~= all.take(0));
    while i < count
        invariant
            all == monitor::references_of(text_map::values_in_order(prs@)),
            count == text_map::sorted_keys(prs@.dom()).len(),
            i <= count,
            r.deep_view() == all.take(i as int),
        decreases count - i,
    {
        let pr = prs.value_at(i);
        let reference = PrRef {
            id: pr.snapshot.id.clone(),
            repo: pr.snapshot.repo.clone(),
            number: pr.snapshot.number,
        };
        let ghost before = r.deep_view();
        assert(reference@ == all[i as int]);
        r.push(reference);
        assert(r.deep_view() =~= before.push(all[i as int]));
        assert(all.take(i + 1) =~= all.take(i as int).push(all[i as int]));
        i += 1;
    }
    assert(all.take(i as int) =~= all);
    r
}

/// A copy of references.
fn copy_references(references: &Vec<PrRef>) -> (r: Vec<PrRef>)
    ensures
        r.deep_view() == references.deep_view(),
{
    let r = references.clone();
    assert(r.deep_view() =~= references.deep_view());
    r
}

impl Monitor {
    /// A monitor that takes up what is kept.
    pub fn new(dev: bool, config: Config, store: Store, ignored_interval: u64, clock: u64) -> (r: Monitor)
        ensures
            r@ == MonitorView::taking_up(dev, config@, store@, ignored_interval, clock).greeting(),
    {
        let ghost tables = store@;
        let ghost given = config@;
        let loaded = store.load();
        let ghost v = loaded.deep_view();
        let mut prs: TextMap<PullRequest> = TextMap::new();
        let mut i: usize = 0;
        assert(v.take(0) =~= Seq::empty());
        while i < loaded.len()
            invariant
                v == loaded.deep_view(),
                tables == store@,
                i <= loaded@.len(),
                prs@ == monitor::by_identity(v.take(i as int), tables.ignored),
            decreases loaded.len() - i,
        {
            assert(v.take(i + 1).drop_last() =~= v.take(i as int));
            assert(v.take(i + 1).last() == loaded@[i as int]@);
            if !store.is_ignored(&loaded[i].snapshot.id) {
                prs.insert(loaded[i].snapshot.id.clone(), loaded[i].clone());
            }
            i += 1;
        }
        assert(v.take(i as int) =~= v);
        let actions = Coordinator::new(&store);
        let references = references_of(&prs);
        let viewer = store.viewer();
        let mut r = Monitor {
            dev,
            config,
            store,
            actions,
            prs,
            references,
            error: None,
            viewer,
            discovered_at: None,
            deadline: clock,
            polling: false,
            ignored_interval,
            ignored_loading: false,
            ignored_checked: false,
            ignored_deadline: clock,
            ignored_requested: false,
            rediscover_after_poll: false,
            invalidated: TextMap::new(),
            failures: 0,
            in_flight: TextMap::new(),
            dismiss_after_delivery: TextMap::new(),
            stopped: false,
            outputs: Vec::new(),
        };
        assert(r@ =~= MonitorView::taking_up(dev, given, tables, ignored_interval, clock));
        let (preferences, error) = match r.store.hotkeys(dev) {
            Ok(preferences) => (preferences, None),
            Err(message) => (hotkeys::Preferences::default(), Some(message)),
        };
        r.show(UiEvent::HotkeysLoaded { preferences, error });
        let state = r.actions.state.clone();
        r.show(UiEvent::ActionsChanged(state));
        r.show_prs();
        r
    }

    /// Hands out what was asked for.
    pub fn take_outputs(&mut self) -> (r: Vec<Output>)
        ensures
            r.deep_view() == old(self)@.outputs,
            final(self)@ == (MonitorView { outputs: Seq::empty(), ..old(self)@ }),
    {
        let mut r: Vec<Output> = Vec::new();
        std::mem::swap(&mut r, &mut self.outputs);
        assert(self.outputs.deep_view() =~= Seq::empty());
        r
    }

    /// Asks for something.
    fn ask(&mut self, output: Output)
        ensures
            final(self)@ == old(self)@.asking(output@),
    {
        let ghost before = self.outputs.deep_view();
        let ghost view = output@;
        self.outputs.push(output);
        assert(self.outputs.deep_view() =~= before.push(view));
    }

    /// Shows something.
    fn show(&mut self, event: UiEvent)
        ensures
            final(self)@ == old(self)@.showing(event@),
    {
        self.ask(Output::Ui(event));
    }

    /// Shows the active pull requests.
    fn show_prs(&mut self)
        ensures
            final(self)@ == old(self)@.showing_prs(),
    {
        let prs = self.prs.value_list();
        let error = text::copy_option(&self.error);
        let loading = self.polling;
        self.show(UiEvent::Updated { prs, error, loading });
    }

    /// Shows the ignored pull requests.
    fn show_ignored(&mut self, error: Option<String>, loading: bool)
        ensures
            final(self)@ == old(self)@.showing_ignored(error.deep_view(), loading),
    {
        let prs = self.store.load_ignored();
        self.show(UiEvent::IgnoredUpdated { prs, error, loading });
    }

    /// Dismisses notifications.
    fn dismiss(&mut self, ids: Vec<String>)
        ensures
            final(self)@ == old(self)@.dismissing(ids.deep_view()),
    {
        let ghost v = ids.deep_view();
        let ghost start = self@;
        let mut i: usize = 0;
        while i < ids.len()
            invariant
                v == ids.deep_view(),
                i <= ids@.len(),
                self@ == (MonitorView { dismiss_after_delivery: self@.dismiss_after_delivery, ..start }),
                forall|id: Seq<char>| #[trigger]
                    self@.dismiss_after_delivery.contains(id) <==> start.dismiss_after_delivery.contains(id) || (v.take(
                        i as int,
                    ).contains(id) && start.in_flight.contains(id)),
            decreases ids.len() - i,
        {
            assert(v.take(i + 1) =~= v.take(i as int).push(v[i as int]));
            if self.in_flight.contains_key(&ids[i]) {
                self.dismiss_after_delivery.insert(ids[i].clone(), ());
            }
            i += 1;
        }
        assert(v.take(i as int) =~= v);
        assert(self@.dismiss_after_delivery =~= start.dismiss_after_delivery.union(
            Set::new(|id: Seq<char>| v.contains(id) && start.in_flight.contains(id)),
        ));
        self.show(UiEvent::DismissNotifications(ids));
    }

    /// Wants a new discovery at once.
    fn refresh(&mut self, t: Time)
        ensures
            final(self)@ == old(self)@.refreshed(t),
    {
        self.deadline = t.clock;
        self.discovered_at = None;
    }

    /// The poll that is under way may not say anything of a pull request.
    fn invalidate(&mut self, id: &str)
        ensures
            final(self)@ == old(self)@.invalidating(id@),
    {
        if self.polling {
            self.invalidated.insert(id.to_owned(), ());
            self.rediscover_after_poll = true;
            assert(self@ =~= old(self)@.invalidating(id@));
        }
    }

    /// A label was changed on GitHub.
    fn save_label(&mut self, id: &str, viewer: &str, label: PrLabel, selected: bool, t: Time)
        ensures
            final(self)@ == old(self)@.label_saved(id@, viewer@, label@, selected, t),
    {
        let own = match &self.viewer {
            Some(own) => text::same(own, viewer),
            None => false,
        };
        if !own {
            return;
        }
        let mut pr = match self.prs.get(id) {
            Some(pr) => pr.clone(),
            None => {
                return;
            },
        };
        let ghost was = pr@;
        let ghost name = label@.name;
        let mut labels = drop_label(&pr.snapshot.labels, &label.name);
        self.actions.label_saved(id, &label.name);
        let ghost given = label@;
        if selected {
            let ghost before = labels.deep_view();
            labels.push(label);
            assert(labels.deep_view() =~= before.push(given));
        }
        pr.snapshot.labels = labels;
        assert(pr@ =~= monitor::with_label(was, given, selected));
        self.store.save(&pr);
        self.prs.insert(id.to_owned(), pr);
        self.invalidate(id);
        self.deadline = t.clock;
        assert(self@ =~= old(self)@.label_saved(id@, viewer@, given, selected, t));
    }

    /// Does what the coordinator of changes asks for, or hands it on.
    fn absorb(&mut self, effect: Effect, t: Time)
        ensures
            final(self)@ == old(self)@.absorbing(effect@, t),
    {
        match effect {
            Effect::Publish(state) => {
                self.show(UiEvent::ActionsChanged(state));
            },
            Effect::LabelRequestHandled => {
                self.show(UiEvent::LabelRequestHandled);
            },
            Effect::SaveCatalogue { viewer, repo, catalogue } => {
                self.store.save_label_catalogue(&viewer, &repo, &catalogue);
            },
            Effect::Refresh => {
                self.refresh(t);
            },
            Effect::LabelSaved { pr, viewer, label, selected } => {
                self.save_label(&pr, &viewer, label, selected, t);
            },
            other => {
                self.ask(Output::Work(other));
            },
        }
    }

    /// Does all that the coordinator of changes asks for, or hands it on.
    fn absorb_all(&mut self, t: Time)
        ensures
            final(self)@ == (MonitorView {
                actions: CoordinatorView { effects: Seq::empty(), ..old(self)@.actions },
                ..old(self)@
            }).absorbing_all(old(self)@.actions.effects, t),
    {
        let mut effects = self.actions.take_effects();
        let ghost v = effects.deep_view();
        let ghost start = self@;
        assert(start =~= (MonitorView {
            actions: CoordinatorView { effects: Seq::empty(), ..old(self)@.actions },
            ..old(self)@
        }));
        let ghost mut done: int = 0;
        assert(v.take(0) =~= Seq::empty());
        assert(v.skip(0) =~= v);
        while effects.len() > 0
            invariant
                0 <= done <= v.len(),
                effects.deep_view() == v.skip(done),
                self@ == start.absorbing_all(v.take(done), t),
            decreases effects.len(),
        {
            let ghost rest = effects.deep_view();
            assert(rest.len() == v.len() - done);
            let effect = effects.remove(0);
            assert(effect@ == rest[0]);
            assert(effect@ == v[done]);
            assert(v.take(done + 1).drop_last() =~= v.take(done));
            assert(effects.deep_view() =~= rest.drop_first());
            assert(effects.deep_view() =~= v.skip(done + 1));
            self.absorb(effect, t);
            proof {
                done = done + 1;
            }
        }
        assert(v.skip(done).len() == 0);
        assert(v.take(done) =~= v);
    }

    /// The account as the coordinator of changes sees it.
    fn account(viewer: &Option<String>) -> (r: Option<&str>)
        ensures
            match r {
                Some(r) => viewer.deep_view() == Some(r@),
                None => viewer.deep_view() is None,
            },
    {
        match viewer {
            Some(viewer) => Some(viewer.as_str()),
            None => None,
        }
    }

    /// Makes what is pending agree again with what is known.
    fn reconcile(&mut self, t: Time)
        ensures
            final(self)@ == old(self)@.with_actions(old(self)@.actions.reconciled(old(self)@.context(t)), t),
    {
        let c = Context {
            store: &self.store,
            prs: &self.prs,
            viewer: Monitor::account(&self.viewer),
            config: &self.config,
            now: t.now,
            clock: t.clock,
            paused: t.paused,
        };
        assert(c@ =~= old(self)@.context(t));
        self.actions.reconcile(&c);
        self.absorb_all(t);
    }

    /// Makes what is pending agree again with what is known, and shows that.
    fn settle(&mut self, t: Time)
        ensures
            final(self)@ == old(self)@.settled(t),
    {
        self.reconcile(t);
        self.show_prs();
        if self.actions.stopping && !self.actions.has_submissions() && !self.stopped {
            self.stopped = true;
            self.show(UiEvent::Stopped);
        }
    }

    /// Tells the coordinator of changes something.
    fn act(&mut self, command: ActionCommand, t: Time)
        ensures
            final(self)@ == ({
                let kept = old(self)@.keeping(command@);
                kept.with_actions(kept.actions.handled(command@, kept.context(t)), t)
            }),
    {
        if let ActionCommand::Configured { repo, preferences, result: Ok(_) } = &command {
            self.store.adopt(Change::SetActions { repo: actions::repo_key(repo), preferences: *preferences });
        }
        let ghost kept = self@;
        assert(kept =~= old(self)@.keeping(command@));
        let c = Context {
            store: &self.store,
            prs: &self.prs,
            viewer: Monitor::account(&self.viewer),
            config: &self.config,
            now: t.now,
            clock: t.clock,
            paused: t.paused,
        };
        assert(c@ =~= kept.context(t));
        self.actions.handle(command, &c);
        self.absorb_all(t);
    }

    // ------------------------------------------------------------ polls

    /// Begins a poll.
    fn begin_poll(&mut self, t: Time)
        ensures
            final(self)@ == old(self)@.poll_begun(t),
    {
        let discover = match self.discovered_at {
            None => true,
            Some(at) => t.clock.saturating_sub(at) / 1000 >= self.config.discovery_seconds,
        };
        self.polling = true;
        self.show_prs();
        let references = copy_references(&self.references);
        let viewer = text::copy_option(&self.viewer);
        let ignored = self.store.ignored();
        self.ask(Output::Poll { references, discover, viewer, ignored });
    }

    /// Everything that is known is stale.
    fn make_stale(&mut self)
        ensures
            final(self)@ == old(self)@.all_stale(),
    {
        let ghost start = self@;
        let ids = self.prs.key_list();
        let ghost v = ids.deep_view();
        let mut prs: TextMap<PullRequest> = TextMap::new();
        proof {
            self.prs.domain_is_finite();
            text_map::sorted_keys_exist(self.prs@.dom());
        }
        let mut i: usize = 0;
        while i < ids.len()
            invariant
                v == ids.deep_view(),
                v.to_set() == start.prs.dom(),
                i <= ids@.len(),
                self@ == start,
                forall|id: Seq<char>| #[trigger] prs@.contains_key(id) <==> v.take(i as int).contains(id),
                forall|id: Seq<char>| #[trigger]
                    prs@.contains_key(id) ==> prs@[id] == store::as_stale(start.prs[id]),
            decreases ids.len() - i,
        {
            assert(v.take(i + 1) =~= v.take(i as int).push(v[i as int]));
            assert(v.to_set().contains(v[i as int]));
            if let Some(pr) = self.prs.get(&ids[i]) {
                let mut pr = pr.clone();
                pr.stale = true;
                prs.insert(ids[i].clone(), pr);
            }
            i += 1;
        }
        assert(v.take(i as int) =~= v);
        assert(prs@ =~= start.all_stale().prs) by {
            assert forall|id: Seq<char>| v.contains(id) <==> start.prs.contains_key(id) by {
                assert(v.contains(id) <==> v.to_set().contains(id));
            }
        }
        self.prs = prs;
    }

    /// An account has answered.
    fn sign_in(&mut self, viewer: String)
        ensures
            final(self)@ == old(self)@.for_viewer(viewer@),
    {
        if self.store.set_viewer(&viewer) {
            self.prs = TextMap::new();
            self.in_flight = TextMap::new();
            assert(self.in_flight@.dom() =~= Set::empty());
        }
        self.viewer = Some(viewer);
        assert(self@ =~= old(self)@.for_viewer(viewer@));
    }

    /// The pull requests that are monitored are others.
    fn follow(&mut self, references: Vec<PrRef>, discovered: bool, t: Time)
        ensures
            final(self)@ == old(self)@.with_references(references.deep_view(), discovered, t),
    {
        let kept = active_references(&references, &self.store);
        if discovered {
            self.discovered_at = Some(t.clock);
            let ids = identities(&kept);
            self.prs.restrict(&ids);
            self.store.retain(&ids);
        }
        self.references = kept;
    }

    /// Announces an update, where that is wanted and was not done before.
    fn announce(&mut self, pr: &PullRequest)
        ensures
            final(self)@ == old(self)@.announcing(pr@),
    {
        if !self.config.notifications || !pr.needs_attention() {
            return;
        }
        if let Some(id) = self.store.notification(pr) {
            if !self.in_flight.contains_key(&id) {
                self.in_flight.insert(id.clone(), ());
                assert(self@.in_flight =~= old(self)@.in_flight.insert(id@));
                let start = text::concat3(&pr.snapshot.repo, " #", &text::decimal(pr.snapshot.number));
                let title = text::concat3(&start, " · ", pr.state.label());
                assert(title@ =~= monitor::notice_title(pr@));
                self.show(UiEvent::Notify { review: true, id, title, body: pr.snapshot.title.clone() });
            }
        }
    }

    /// A new snapshot of a pull request has come.
    fn take_snapshot(&mut self, id: String, snapshot: Snapshot, t: Time)
        ensures
            final(self)@ == old(self)@.with_snapshot(id@, snapshot@, t),
    {
        let expected = self.config.expected(&snapshot.repo);
        let pr = worker::transition(snapshot, self.prs.get(&id), expected, t.now, self.config.settle_seconds);
        self.store.save(&pr);
        self.announce(&pr);
        self.prs.insert(id, pr);
    }

    /// A poll has brought something of a pull request.
    fn take_result(&mut self, id: String, outcome: Result<Snapshot, String>, t: Time)
        ensures
            final(self)@ == old(self)@.with_result(
                (
                    id@,
                    match outcome {
                        Ok(snapshot) => Ok(snapshot@),
                        Err(message) => Err(message@),
                    },
                ),
                t,
            ),
    {
        if self.store.is_ignored(&id) || self.invalidated.contains_key(&id) {
            return;
        }
        match outcome {
            Err(message) => {
                let known = match self.prs.get(&id) {
                    Some(pr) => Some(pr.clone()),
                    None => None,
                };
                if let Some(pr) = known {
                    let mut pr = pr;
                    pr.stale = true;
                    pr.error = Some(message);
                    self.prs.insert(id, pr);
                }
            },
            Ok(snapshot) => {
                if !snapshot.open {
                    let _ = self.prs.remove(&id);
                    let rest = drop_reference(&self.references, &id);
                    self.references = rest;
                } else {
                    self.take_snapshot(id, snapshot, t);
                }
            },
        }
    }

    /// A poll has brought something of several pull requests. What comes back is the error
    /// that is shown for it.
    fn take_results(&mut self, results: Vec<(String, Result<Snapshot, String>)>, t: Time) -> (r: Option<String>)
        ensures
            final(self)@ == old(self)@.with_results(events::results_view(results@), t),
            r.deep_view() == old(self)@.results_error(events::results_view(results@)),
    {
        let ghost v = events::results_view(results@);
        let ghost start = self@;
        let mut results = results;
        let mut error: Option<String> = None;
        let ghost mut done: int = 0;
        assert(v.take(0) =~= Seq::empty());
        assert(v.skip(0) =~= v);
        while results.len() > 0
            invariant
                0 <= done <= v.len(),
                events::results_view(results@) == v.skip(done),
                self@ == start.with_results(v.take(done), t),
                error.deep_view() == start.results_error(v.take(done)),
                self@.tables.ignored == start.tables.ignored,
                self@.invalidated == start.invalidated,
            decreases results.len(),
        {
            let ghost rest = events::results_view(results@);
            assert(rest.len() == v.len() - done);
            let (id, outcome) = results.remove(0);
            assert(rest[0] == v[done]);
            assert(v.take(done + 1).drop_last() =~= v.take(done));
            assert(v.take(done + 1).last() == v[done]);
            assert(events::results_view(results@) =~= rest.drop_first());
            assert(events::results_view(results@) =~= v.skip(done + 1));
            let taken = !self.store.is_ignored(&id) && !self.invalidated.contains_key(&id);
            if taken {
                if let Err(message) = &outcome {
                    if !text::starts_with(message, "PR changed") {
                        error = Some(message.clone());
                    }
                }
            }
            proof {
                results_keep_ignored(self@, v[done], t);
            }
            self.take_result(id, outcome, t);
            proof {
                done = done + 1;
            }
        }
        assert(v.skip(done).len() == 0);
        assert(v.take(done) =~= v);
        error
    }

    /// The outcome of a poll is known.
    fn end_poll(&mut self, error: Option<String>, t: Time)
        ensures
            final(self)@ == old(self)@.poll_over(error.deep_view(), t),
    {
        if !text::same_option(&error, &self.error) {
            if let Some(message) = &error {
                let id = text::concat("gopher-error-", &evidence::hash(message.as_str().as_bytes()));
                self.show(
                    UiEvent::Notify {
                        review: false,
                        id,
                        title: "Gopher needs attention".to_owned(),
                        body: message.clone(),
                    },
                );
            }
        }
        self.failures = if error.is_none() {
            0
        } else {
            self.failures.saturating_add(1)
        };
        self.error = error;
        let delay: u64 = poll_delay(self.config.poll_seconds, self.failures);
        self.deadline = later(t.clock, delay * 1000);
        self.invalidated = TextMap::new();
        assert(self.invalidated@.dom() =~= Set::empty());
        if self.rediscover_after_poll {
            self.rediscover_after_poll = false;
            self.refresh(t);
        }
        assert(self@ =~= old(self)@.poll_over(error.deep_view(), t));
    }

    /// A poll was completed.
    fn finish_poll(&mut self, batch: Batch, t: Time)
        ensures
            final(self)@ == old(self)@.poll_done(batch@, t),
    {
        self.polling = false;
        self.sign_in(batch.viewer);
        self.follow(batch.references, batch.discovered, t);
        let error = self.take_results(batch.results, t);
        self.store.retain(&self.prs);
        self.end_poll(error, t);
    }

    /// Asks for the catalogues of labels that are due.
    fn refresh_catalogues(&mut self, t: Time)
        ensures
            final(self)@ == old(self)@.with_catalogues(t),
    {
        if self.actions.stopping {
            return;
        }
        self.reconcile(t);
        let ghost agreed = self@;
        let c = Context {
            store: &self.store,
            prs: &self.prs,
            viewer: Monitor::account(&self.viewer),
            config: &self.config,
            now: t.now,
            clock: t.clock,
            paused: t.paused,
        };
        assert(c@ =~= agreed.context(t));
        self.actions.refresh_catalogues(&c, None);
        self.absorb_all(t);
    }

    // ------------------------------------------------------------ what the user does

    /// Acknowledges an update of a pull request, or withdraws that. The result says whether
    /// the update is the current one.
    fn mark(&mut self, id: &str, update: &str, checked: bool) -> (r: bool)
        ensures
            r == (old(self)@.prs.contains_key(id@) && old(self)@.prs[id@].update_id == update@),
            final(self)@ == if r {
                let pr = store::acknowledged(old(self)@.prs[id@], update@, checked);
                MonitorView {
                    prs: old(self)@.prs.insert(id@, pr),
                    tables: TablesView { prs: old(self)@.tables.prs.insert(pr.snapshot.id, pr), ..old(self)@.tables },
                    ..old(self)@
                }
            } else {
                old(self)@
            },
    {
        let mut pr = match self.prs.get(id) {
            Some(pr) => pr.clone(),
            None => {
                return false;
            },
        };
        if !self.store.acknowledge(&mut pr, update, checked) {
            return false;
        }
        self.prs.insert(id.to_owned(), pr);
        true
    }

    /// Acknowledges an update, or withdraws that.
    fn acknowledge(&mut self, id: &str, update: &str, checked: bool)
        ensures
            final(self)@ == old(self)@.acknowledged(id@, update@, checked),
    {
        if !self.mark(id, update, checked) || !checked {
            return;
        }
        if let Some(pr) = self.prs.get(id) {
            let ids = self.store.notification_ids(&pr.snapshot.id, Some(update));
            self.dismiss(ids);
        }
    }

    /// Ignores a pull request.
    fn ignore(&mut self, id: &str)
        ensures
            final(self)@ == old(self)@.ignoring(id@),
    {
        let ids = self.store.ignore(id);
        self.ignored_checked = false;
        if self.polling {
            self.invalidated.insert(id.to_owned(), ());
            assert(self@.invalidated =~= old(self)@.invalidated.insert(id@));
        }
        let _ = self.prs.remove(id);
        let rest = drop_reference(&self.references, id);
        self.references = rest;
        self.dismiss(ids);
        if self.ignored_requested {
            let loading = self.ignored_loading;
            self.show_ignored(None, loading);
        }
    }

    /// A pull request is no longer ignored.
    fn restore(&mut self, id: &str, t: Time)
        ensures
            final(self)@ == old(self)@.restoring(id@, t),
    {
        if self.store.restore(id) {
            self.invalidate(id);
            self.refresh(t);
        }
        let loading = self.ignored_loading;
        self.show_ignored(None, loading);
    }

    /// The user acts on a notification.
    fn use_notification(&mut self, id: String, open: bool, reveal: bool)
        ensures
            final(self)@ == old(self)@.notification_used(id@, open, reveal),
    {
        let (pr, update, url) = match self.store.notification_target(&id) {
            Some(target) => target,
            None => {
                return;
            },
        };
        if open {
            self.show(UiEvent::Open { url, pr, update });
            return;
        }
        let known = self.prs.contains_key(&pr);
        let _ = self.mark(&pr, &update, true);
        let ids: Vec<String> = vec![id];
        assert(ids.deep_view() =~= seq![id@]);
        self.dismiss(ids);
        if reveal {
            self.show(
                UiEvent::ShowPopover {
                    pr: if known {
                        Some(pr)
                    } else {
                        None
                    },
                },
            );
        }
    }

    /// A notification was delivered.
    fn deliver(&mut self, id: String)
        ensures
            final(self)@ == old(self)@.notification_delivered(id@),
    {
        self.store.mark_delivered(&id);
        let _ = self.in_flight.remove(&id);
        let dismissed = self.dismiss_after_delivery.contains_key(&id);
        let _ = self.dismiss_after_delivery.remove(&id);
        assert(self@.in_flight =~= old(self)@.in_flight.remove(id@));
        assert(self@.dismiss_after_delivery =~= old(self)@.dismiss_after_delivery.remove(id@));
        if dismissed {
            let ids: Vec<String> = vec![id];
            assert(ids.deep_view() =~= seq![id@]);
            self.show(UiEvent::DismissNotifications(ids));
        }
    }

    /// A notification could not be delivered.
    fn give_up(&mut self, id: &str)
        ensures
            final(self)@ == old(self)@.notification_failed(id@),
    {
        let _ = self.in_flight.remove(id);
        let _ = self.dismiss_after_delivery.remove(id);
        assert(self@ =~= old(self)@.notification_failed(id@));
    }

    // ------------------------------------------------------------ ignored pull requests

    /// Begins a lookup of the ignored pull requests.
    fn begin_lookup(&mut self, t: Time)
        ensures
            final(self)@ == old(self)@.lookup_begun(t),
    {
        self.ignored_loading = true;
        self.ignored_deadline = later(t.clock, self.ignored_interval);
        let ids = self.store.ignored();
        self.ask(Output::LookUp(ids));
        self.show_ignored(None, true);
    }

    /// Ignored pull requests were looked up.
    fn finish_lookup(&mut self, found: Result<Vec<Snapshot>, String>, t: Time)
        ensures
            final(self)@ == old(self)@.lookup_done(fields::result_view(found), t),
    {
        let ghost start = self@;
        self.ignored_loading = false;
        self.ignored_deadline = later(t.clock, self.ignored_interval);
        match found {
            Ok(snapshots) => {
                self.ignored_checked = true;
                let ghost v = snapshots.deep_view();
                let ghost before = self@;
                let mut i: usize = 0;
                assert(v.take(0) =~= Seq::empty());
                while i < snapshots.len()
                    invariant
                        v == snapshots.deep_view(),
                        i <= snapshots@.len(),
                        self@ == (MonitorView {
                            tables: monitor::looked_up(before.tables, v.take(i as int)),
                            ..before
                        }),
                    decreases snapshots.len() - i,
                {
                    assert(v.take(i + 1).drop_last() =~= v.take(i as int));
                    assert(v.take(i + 1).last() == snapshots@[i as int]@);
                    self.store.update_ignored_status(&snapshots[i]);
                    i += 1;
                }
                assert(v.take(i as int) =~= v);
                self.show_ignored(None, false);
            },
            Err(message) => {
                self.ignored_checked = false;
                self.show_ignored(Some(message), false);
            },
        }
    }

    /// The user wants to see the ignored pull requests.
    fn want_ignored(&mut self, t: Time)
        ensures
            final(self)@ == old(self)@.ignored_wanted(t),
    {
        self.ignored_requested = true;
        if !self.ignored_checked && !self.ignored_loading {
            self.ignored_deadline = t.clock;
        }
        let loading = self.ignored_loading;
        self.show_ignored(None, loading);
    }

    // ------------------------------------------------------------ shortcuts

    /// Shortcuts are to be kept, if they are sound.
    fn choose_hotkeys(&mut self, preferences: hotkeys::Preferences)
        ensures
            final(self)@ == old(self)@.hotkeys_chosen(preferences@),
    {
        match preferences.validate(self.dev) {
            Ok(_) => {
                self.ask(Output::WriteHotkeys(preferences));
            },
            Err(message) => {
                self.show(UiEvent::HotkeysSaved(Err(message)));
            },
        }
    }

    /// Shortcuts were written down, or not.
    fn keep_hotkeys(&mut self, preferences: hotkeys::Preferences, result: Result<(), String>)
        ensures
            final(self)@ == old(self)@.hotkeys_written(preferences@, fields::result_view(result)),
    {
        if result.is_ok() {
            self.store.adopt(Change::SetHotkeys(preferences));
        }
        self.show(UiEvent::HotkeysSaved(result));
    }

    // ------------------------------------------------------------ everything

    /// Takes in what was told.
    fn take_in(&mut self, command: Command, t: Time)
        ensures
            final(self)@ == old(self)@.told(command@, t),
    {
        match command {
            Command::PrAction(command) => {
                self.act(command, t);
            },
            Command::LabelSaved { pr, viewer, label, selected } => {
                self.save_label(&pr, &viewer, label, selected, t);
            },
            Command::Refresh => {
                self.refresh(t);
            },
            Command::Poll => {},
            Command::Acknowledge { pr, update, checked } => {
                self.acknowledge(&pr, &update, checked);
            },
            Command::Ignore(id) => {
                self.ignore(&id);
            },
            Command::ShowIgnored => {
                self.want_ignored(t);
            },
            Command::CheckIgnored => {
                self.begin_lookup(t);
            },
            Command::Restore(id) => {
                self.restore(&id, t);
            },
            Command::IgnoredDetailsLoaded(found) => {
                self.finish_lookup(found, t);
            },
            Command::NotificationAction { id, open, reveal } => {
                self.use_notification(id, open, reveal);
            },
            Command::NotificationDelivered(id) => {
                self.deliver(id);
            },
            Command::NotificationFailed(id) => {
                self.give_up(&id);
            },
            Command::SaveHotkeys(preferences) => {
                self.choose_hotkeys(preferences);
            },
            Command::HotkeysWritten { preferences, result } => {
                self.keep_hotkeys(preferences, result);
            },
            Command::Shutdown => {
                self.actions.begin_shutdown();
            },
            Command::PollComplete(Err(message)) => {
                self.polling = false;
                self.make_stale();
                self.end_poll(Some(message), t);
            },
            Command::PollComplete(Ok(batch)) => {
                self.finish_poll(batch, t);
                self.refresh_catalogues(t);
            },
        }
    }

    /// Takes in what was told, and asks for what follows from it.
    pub fn step(&mut self, command: Command, t: Time)
        ensures
            final(self)@ == old(self)@.stepped(command@, t),
    {
        match &command {
            Command::Poll => {
                if !self.polling && !self.actions.stopping {
                    self.begin_poll(t);
                }
                return;
            },
            Command::CheckIgnored => {
                if self.ignored_loading {
                    return;
                }
                if self.store.ignores_none() {
                    self.ignored_deadline = later(t.clock, self.ignored_interval);
                    return;
                }
            },
            _ => {},
        }
        self.take_in(command, t);
        self.settle(t);
    }

    /// Whether a poll is due.
    pub fn poll_due(&self, clock: u64) -> (r: bool)
        ensures
            r == self@.poll_due(clock),
    {
        !self.polling && !self.actions.stopping && self.deadline <= clock
    }

    /// Whether a lookup of the ignored pull requests is due.
    pub fn lookup_due(&self, clock: u64) -> (r: bool)
        ensures
            r == self@.lookup_due(clock),
    {
        !self.ignored_loading && !self.actions.stopping && self.ignored_deadline <= clock
    }
}

/// No result makes anything ignored, or no longer.
proof fn results_keep_ignored(m: MonitorView, result: PollResult, t: Time)
    ensures
        m.with_result(result, t).tables.ignored == m.tables.ignored,
        m.with_result(result, t).invalidated == m.invalidated,
{
}

} // verus!
