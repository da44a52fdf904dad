//! The subscriptions of the pipeline: one per market and channel kind, made
//! one after the other over a single connection, all or nothing.
//!
//! The manager decides; its caller talks to the broker. The caller asks
//! [`SubscriptionManager::next_action`] what to do, does it, and reports the
//! outcome with [`SubscriptionManager::confirm`].

use vstd::prelude::*;

use crate::channel::lemma_names_are_distinct;
use crate::channel::Channel;
use crate::channel::ChannelKind;
use crate::channel::CHANNEL_KINDS;
use crate::error::SubscriptionError;
use crate::registry::MarketSet;

verus! {

/// The channels to subscribe to for the markets in `order`: for each market
/// in turn its orders, fills and price levels.
pub open spec fn plan_of(order: Seq<u64>) -> Seq<Channel> {
    Seq::new(
        3 * order.len(),
        |i: int| Channel { kind: ChannelKind::spec_at(i % 3), market_id: order[i / 3] },
    )
}

/// The plan for a set of markets holds three channels for each market, one
/// per kind, holds no channel twice and no name twice, and holds no channel
/// of another market.
pub proof fn lemma_plan_is_exact(order: Seq<u64>)
    requires
        order.no_duplicates(),
    ensures
        plan_of(order).len() == 3 * order.len(),
        plan_of(order).no_duplicates(),
        forall|i: int, j: int|
            0 <= i < j < plan_of(order).len() ==> (#[trigger] plan_of(order)[i]).spec_name() != (
            #[trigger] plan_of(order)[j]).spec_name(),
        forall|channel: Channel| #[trigger]
            plan_of(order).contains(channel) <==> order.contains(channel.market_id),
{
    let plan = plan_of(order);
    assert forall|i: int, j: int| 0 <= i < j < plan.len() implies plan[i] != plan[j] && (
    #[trigger] plan[i]).spec_name() != (#[trigger] plan[j]).spec_name() by {
        lemma_names_are_distinct(plan[i], plan[j]);
    }
    assert forall|channel: Channel| #[trigger]
        plan.contains(channel) <==> order.contains(channel.market_id) by {
        if order.contains(channel.market_id) {
            let m = choose|m: int| 0 <= m < order.len() && order[m] == channel.market_id;
            let k = match channel.kind {
                ChannelKind::Orders => 0int,
                ChannelKind::Fills => 1int,
                ChannelKind::PriceLevels => 2int,
            };
            let i = 3 * m + k;
            assert(plan[i] == channel);
        }
    }
}

/// The channels to subscribe to for a set of markets.
pub fn subscription_plan(markets: &MarketSet) -> (plan: Vec<Channel>)
    ensures
        plan@ == plan_of(markets.order()),
        plan@.len() == 3 * markets@.len(),
{
    let ids = markets.ids();
    let mut plan: Vec<Channel> = Vec::new();
    let mut m: usize = 0;
    while m < ids.len()
        invariant
            m <= ids.len(),
            plan@.len() == 3 * m,
            forall|i: int|
                0 <= i < 3 * m ==> #[trigger] plan@[i] == (Channel {
                    kind: ChannelKind::spec_at(i % 3),
                    market_id: ids@[i / 3],
                }),
        decreases ids.len() - m,
    {
        let mut k: usize = 0;
        while k < CHANNEL_KINDS
            invariant
                m < ids.len(),
                k <= CHANNEL_KINDS,
                plan@.len() == 3 * m + k,
                forall|i: int|
                    0 <= i < 3 * m + k ==> #[trigger] plan@[i] == (Channel {
                        kind: ChannelKind::spec_at(i % 3),
                        market_id: ids@[i / 3],
                    }),
            decreases CHANNEL_KINDS - k,
        {
            if let Some(kind) = ChannelKind::at(k) {
                plan.push(Channel { kind, market_id: ids[m] });
            }
            k += 1;
        }
        m += 1;
    }
    plan
}

/// What the manager is doing.
#[derive(Clone, Copy, Debug, PartialEq, Eq, Structural)]
pub enum Phase {
    /// Channels are still to be subscribed to.
    Subscribing,
    /// Every channel is subscribed to: payloads may be read.
    Active,
    /// A subscription failed: the startup is over.
    Failed,
    /// The manager was closed.
    Closed,
}

/// What the caller is to do next.
#[derive(Clone, Copy, Debug, PartialEq, Eq, Structural)]
pub enum SubscriptionAction {
    /// Subscribe to this channel and report the outcome.
    Subscribe(Channel),
    /// Read payloads: every channel is subscribed to.
    Listen,
    /// Give up the startup with this error.
    Abort(SubscriptionError),
    /// Nothing: the manager was closed.
    Rest,
}

/// The mathematical content of a [`SubscriptionManager`].
pub struct SubscriptionView {
    /// The channels to subscribe to, in order.
    pub plan: Seq<Channel>,
    /// How many of them are subscribed to: the first so many of the plan.
    pub established: nat,
    pub phase: Phase,
}

impl SubscriptionView {
    /// What the caller is to do in this state.
    pub open spec fn action(self) -> SubscriptionAction {
        match self.phase {
            Phase::Subscribing => SubscriptionAction::Subscribe(self.plan[self.established as int]),
            Phase::Active => SubscriptionAction::Listen,
            Phase::Failed => SubscriptionAction::Abort(
                SubscriptionError { channel: self.plan[self.established as int] },
            ),
            Phase::Closed => SubscriptionAction::Rest,
        }
    }

    /// The state after the broker answered the subscription that
    /// [`SubscriptionView::action`] asked for.
    pub open spec fn confirmed(self, succeeded: bool) -> SubscriptionView {
        if self.phase != Phase::Subscribing {
            self
        } else if !succeeded {
            SubscriptionView { phase: Phase::Failed, ..self }
        } else if self.established + 1 < self.plan.len() {
            SubscriptionView { established: self.established + 1, ..self }
        } else {
            SubscriptionView { established: self.established + 1, phase: Phase::Active, ..self }
        }
    }

    /// The state before the first subscription.
    pub open spec fn start(plan: Seq<Channel>) -> SubscriptionView {
        SubscriptionView {
            plan,
            established: 0,
            phase: if plan.len() == 0 {
                Phase::Active
            } else {
                Phase::Subscribing
            },
        }
    }

    /// The state after `n` subscriptions succeeded in a row.
    pub open spec fn after_successes(self, n: nat) -> SubscriptionView
        decreases n,
    {
        if n == 0 {
            self
        } else {
            self.after_successes((n - 1) as nat).confirmed(true)
        }
    }

    /// The channels that are subscribed to.
    pub open spec fn subscribed(self) -> Seq<Channel> {
        self.plan.subrange(0, self.established as int)
    }

    /// The state is one that a manager can be in.
    pub open spec fn wf(self) -> bool {
        match self.phase {
            Phase::Subscribing => self.established < self.plan.len(),
            Phase::Failed => self.established < self.plan.len(),
            Phase::Active => self.established == self.plan.len(),
            Phase::Closed => self.established <= self.plan.len(),
        }
    }
}

/// When every subscription succeeds, the manager has subscribed to the
/// first `n` channels of the plan after `n` answers, and is active exactly
/// when it has subscribed to the whole plan: three channels for each market.
pub proof fn lemma_all_subscribed(plan: Seq<Channel>, n: nat)
    requires
        n <= plan.len(),
    ensures
        SubscriptionView::start(plan).after_successes(n).plan == plan,
        SubscriptionView::start(plan).after_successes(n).established == n,
        SubscriptionView::start(plan).after_successes(n).wf(),
        SubscriptionView::start(plan).after_successes(n).phase == if n == plan.len() {
            Phase::Active
        } else {
            Phase::Subscribing
        },
        n == plan.len() ==> SubscriptionView::start(plan).after_successes(n).subscribed() == plan,
    decreases n,
{
    if n > 0 {
        lemma_all_subscribed(plan, (n - 1) as nat);
    }
}

/// The subscriptions of the pipeline and their progress.
#[derive(Debug)]
pub struct SubscriptionManager {
    plan: Vec<Channel>,
    established: usize,
    failed: bool,
    closed: bool,
}

impl View for SubscriptionManager {
    type V = SubscriptionView;

    closed spec fn view(&self) -> SubscriptionView {
        SubscriptionView {
            plan: self.plan@,
            established: self.established as nat,
            phase: if self.closed {
                Phase::Closed
            } else if self.failed {
                Phase::Failed
            } else if self.established < self.plan@.len() {
                Phase::Subscribing
            } else {
                Phase::Active
            },
        }
    }
}

impl SubscriptionManager {
    #[verifier::type_invariant]
    spec fn well_formed(self) -> bool {
        &&& self.established <= self.plan@.len()
        &&& self.failed ==> self.established < self.plan@.len()
    }

    /// The manager for a set of markets, before the first subscription.
    pub fn subscribe_all(markets: &MarketSet) -> (r: SubscriptionManager)
        ensures
            r@ == SubscriptionView::start(plan_of(markets.order())),
            r@.plan.len() == 3 * markets@.len(),
            r@.wf(),
    {
        let plan = subscription_plan(markets);
        SubscriptionManager { plan, established: 0, failed: false, closed: false }
    }

    /// What the caller is to do next.
    pub fn next_action(&self) -> (r: SubscriptionAction)
        ensures
            r == self@.action(),
            self@.wf(),
    {
        proof {
            use_type_invariant(self);
        }
        match self.phase() {
            Phase::Subscribing => SubscriptionAction::Subscribe(self.plan[self.established]),
            Phase::Active => SubscriptionAction::Listen,
            Phase::Failed => SubscriptionAction::Abort(
                SubscriptionError { channel: self.plan[self.established] },
            ),
            Phase::Closed => SubscriptionAction::Rest,
        }
    }

    /// Takes the broker's answer to the subscription that
    /// [`SubscriptionManager::next_action`] asked for. One failure ends the
    /// startup. Outside the subscribing phase the answer changes nothing.
    pub fn confirm(&mut self, succeeded: bool)
        ensures
            final(self)@ == old(self)@.confirmed(succeeded),
    {
        proof {
            use_type_invariant(&*self);
        }
        match self.phase() {
            Phase::Subscribing => {
                if succeeded {
                    assert(self.established < self.plan.len());
                    self.established = self.established + 1;
                } else {
                    self.failed = true;
                }
            },
            _ => {},
        }
    }

    /// Closes the manager and returns the channels to unsubscribe from: all
    /// that were subscribed to.
    pub fn close(&mut self) -> (r: Vec<Channel>)
        ensures
            r@ == old(self)@.subscribed(),
            final(self)@ == (SubscriptionView {
                plan: old(self)@.plan,
                established: 0,
                phase: Phase::Closed,
            }),
    {
        proof {
            use_type_invariant(&*self);
        }
        let mut r: Vec<Channel> = Vec::new();
        let mut i: usize = 0;
        while i < self.established
            invariant
                i <= self.established <= self.plan.len(),
                r@ == self.plan@.subrange(0, i as int),
            decreases self.established - i,
        {
            r.push(self.plan[i]);
            i += 1;
        }
        self.established = 0;
        self.closed = true;
        r
    }

    /// The phase that the manager is in.
    pub fn phase(&self) -> (r: Phase)
        ensures
            r == self@.phase,
            self@.wf(),
    {
        proof {
            use_type_invariant(self);
        }
        if self.closed {
            Phase::Closed
        } else if self.failed {
            Phase::Failed
        } else if self.established < self.plan.len() {
            Phase::Subscribing
        } else {
            Phase::Active
        }
    }

    /// The number of channels that are subscribed to.
    pub fn established(&self) -> (r: usize)
        ensures
            r == self@.established,
    {
        self.established
    }

    /// The channels of the plan, in the order in which they are subscribed to.
    pub fn plan(&self) -> (r: &Vec<Channel>)
        ensures
            r@ == self@.plan,
    {
        &self.plan
    }
}

} // verus!
