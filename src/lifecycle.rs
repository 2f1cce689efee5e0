//! The device lifecycle as state machines: the steps that create a device,
//! and the releases that tear it down. The caller performs each step or
//! release and reports whether it succeeded; the machines decide what comes
//! next.
//!
//! Creation runs its steps in order and stops at the first failure. Teardown
//! releases what is open (the device descriptor first, then, where there is
//! one, the interface and the control socket), and goes on through every
//! release whatever the outcome of the one before.
use vstd::prelude::*;

verus! {

/// How a backend names and configures its devices.
#[derive(Debug, Clone, Copy, PartialEq, Eq)]
pub enum Platform {
    /// The caller names the device; configuration goes over netlink, so no
    /// control resource is held.
    Linux,
    /// The kernel names the device; configuration goes through ioctls on a
    /// control socket held for the device's lifetime.
    FreeBsd,
}

/// One step of device creation.
#[derive(Debug, Clone, Copy, PartialEq, Eq)]
pub enum Step {
    /// Open the device node (acquires the device descriptor).
    OpenDevice,
    /// Apply the post-open setup: creation flags or interface mode.
    SetupDevice,
    /// Resolve the interface's name or index.
    ResolveIdentity,
    /// Open the control socket (acquires the control resource).
    OpenControl,
    /// Apply the configuration.
    Configure,
}

/// One release of teardown.
#[derive(Debug, Clone, Copy, PartialEq, Eq)]
pub enum Release {
    /// Close the device descriptor.
    ClosePrimary,
    /// Destroy the interface through the control resource.
    DestroyInterface,
    /// Close the control resource.
    CloseControl,
}

/// The creation steps of a platform, in order.
pub open spec fn create_steps(platform: Platform) -> Seq<Step> {
    match platform {
        Platform::Linux => seq![
            Step::OpenDevice,
            Step::SetupDevice,
            Step::ResolveIdentity,
            Step::Configure,
        ],
        Platform::FreeBsd => seq![
            Step::OpenDevice,
            Step::SetupDevice,
            Step::ResolveIdentity,
            Step::OpenControl,
            Step::Configure,
        ],
    }
}

/// The releases that tear down what is open, in order.
pub open spec fn release_plan(primary_open: bool, control_open: bool) -> Seq<Release> {
    (if primary_open {
        seq![Release::ClosePrimary]
    } else {
        Seq::empty()
    }) + (if control_open {
        seq![Release::DestroyInterface, Release::CloseControl]
    } else {
        Seq::empty()
    })
}

/// The first `done` steps include `step`.
pub open spec fn completed(platform: Platform, done: nat, step: Step) -> bool {
    exists|i: int| 0 <= i < done && create_steps(platform)[i] == step
}

/// The state of a teardown: the plan and how far it has gone.
pub struct TeardownState {
    pub plan: Seq<Release>,
    pub pos: nat,
    pub failures: nat,
}

/// The teardown state after one release with outcome `ok`: the next release,
/// whatever the outcome.
pub open spec fn after_release(t: TeardownState, ok: bool) -> TeardownState {
    TeardownState {
        plan: t.plan,
        pos: t.pos + 1,
        failures: if ok {
            t.failures
        } else {
            t.failures + 1
        },
    }
}

/// The teardown state after releases with the given outcomes.
pub open spec fn after_releases(t: TeardownState, outcomes: Seq<bool>) -> TeardownState
    decreases outcomes.len(),
{
    if outcomes.len() == 0 {
        t
    } else {
        after_releases(after_release(t, outcomes[0]), outcomes.drop_first())
    }
}

/// The releases issued while the given outcomes are reported.
pub open spec fn issued(t: TeardownState, outcomes: Seq<bool>) -> Seq<Release>
    decreases outcomes.len(),
{
    if outcomes.len() == 0 {
        Seq::empty()
    } else {
        seq![t.plan[t.pos as int]] + issued(after_release(t, outcomes[0]), outcomes.drop_first())
    }
}

/// Teardown of a device or of a partly created one.
pub struct Teardown {
    primary_open: bool,
    control_open: bool,
    pos: usize,
    failures: usize,
}

impl View for Teardown {
    type V = TeardownState;

    closed spec fn view(&self) -> TeardownState {
        TeardownState {
            plan: release_plan(self.primary_open, self.control_open),
            pos: self.pos as nat,
            failures: self.failures as nat,
        }
    }
}

impl Teardown {
    pub open spec fn wf(&self) -> bool {
        self@.pos <= self@.plan.len() && self@.failures <= self@.pos
    }

    /// Teardown of a device whose resources are all open: the device
    /// descriptor, and the control resource where the platform holds one.
    pub fn for_device(platform: Platform) -> (r: Teardown)
        ensures
            r.wf(),
            r@.plan == release_plan(true, platform == Platform::FreeBsd),
            r@.pos == 0,
            r@.failures == 0,
    {
        Teardown {
            primary_open: true,
            control_open: match platform {
                Platform::Linux => false,
                Platform::FreeBsd => true,
            },
            pos: 0,
            failures: 0,
        }
    }

    /// The release to perform next, if any is left.
    pub fn next(&self) -> (r: Option<Release>)
        requires
            self.wf(),
        ensures
            self@.pos < self@.plan.len() ==> r == Some(self@.plan[self@.pos as int]),
            self@.pos >= self@.plan.len() ==> r is None,
    {
        let mut i: usize = self.pos;
        if self.primary_open {
            if i == 0 {
                return Some(Release::ClosePrimary);
            }
            i = i - 1;
        }
        if self.control_open {
            if i == 0 {
                return Some(Release::DestroyInterface);
            }
            if i == 1 {
                return Some(Release::CloseControl);
            }
        }
        None
    }

    /// Records the outcome of the release just performed. A failure is
    /// counted and teardown goes on.
    pub fn record(&mut self, ok: bool)
        requires
            old(self).wf(),
            old(self)@.pos < old(self)@.plan.len(),
        ensures
            final(self).wf(),
            final(self)@ == after_release(old(self)@, ok),
    {
        self.pos = self.pos + 1;
        if !ok {
            self.failures = self.failures + 1;
        }
    }

    /// Whether every release has been performed.
    pub fn is_finished(&self) -> (r: bool)
        requires
            self.wf(),
        ensures
            r == (self@.pos >= self@.plan.len()),
    {
        let len: usize = (if self.primary_open {
            1usize
        } else {
            0usize
        }) + (if self.control_open {
            2usize
        } else {
            0usize
        });
        self.pos >= len
    }

    /// Number of releases that failed so far.
    pub fn failures(&self) -> (r: usize)
        ensures
            r == self@.failures,
    {
        self.failures
    }
}

/// The state of a creation: the platform, how many steps succeeded, and
/// whether one failed.
pub struct SetupState {
    pub platform: Platform,
    pub done: nat,
    pub failed: bool,
}

/// Creation of a device, step by step.
pub struct Setup {
    platform: Platform,
    done: usize,
    failed: bool,
}

impl View for Setup {
    type V = SetupState;

    closed spec fn view(&self) -> SetupState {
        SetupState { platform: self.platform, done: self.done as nat, failed: self.failed }
    }
}

fn step_count(platform: Platform) -> (r: usize)
    ensures
        r == create_steps(platform).len(),
{
    match platform {
        Platform::Linux => 4,
        Platform::FreeBsd => 5,
    }
}

impl Setup {
    pub open spec fn wf(&self) -> bool {
        self@.done <= create_steps(self@.platform).len()
    }

    /// A creation that has not begun.
    pub fn new(platform: Platform) -> (r: Setup)
        ensures
            r.wf(),
            r@ == (SetupState { platform, done: 0, failed: false }),
    {
        Setup { platform, done: 0, failed: false }
    }

    /// The step to perform next: none once a step has failed or all are done.
    pub fn next_step(&self) -> (r: Option<Step>)
        requires
            self.wf(),
        ensures
            !self@.failed && self@.done < create_steps(self@.platform).len() ==> r == Some(
                create_steps(self@.platform)[self@.done as int],
            ),
            self@.failed || self@.done >= create_steps(self@.platform).len() ==> r is None,
    {
        if self.failed || self.done >= step_count(self.platform) {
            return None;
        }
        let step = match self.done {
            0 => Step::OpenDevice,
            1 => Step::SetupDevice,
            2 => Step::ResolveIdentity,
            3 => match self.platform {
                Platform::Linux => Step::Configure,
                Platform::FreeBsd => Step::OpenControl,
            },
            _ => Step::Configure,
        };
        Some(step)
    }

    /// Records the outcome of the step just performed.
    pub fn record(&mut self, ok: bool)
        requires
            old(self).wf(),
            !old(self)@.failed,
            old(self)@.done < create_steps(old(self)@.platform).len(),
        ensures
            final(self).wf(),
            final(self)@.platform == old(self)@.platform,
            ok ==> final(self)@.done == old(self)@.done + 1 && !final(self)@.failed,
            !ok ==> final(self)@.done == old(self)@.done && final(self)@.failed,
    {
        if ok {
            self.done = self.done + 1;
        } else {
            self.failed = true;
        }
    }

    /// Whether every step succeeded.
    pub fn is_complete(&self) -> (r: bool)
        requires
            self.wf(),
        ensures
            r == (!self@.failed && self@.done == create_steps(self@.platform).len()),
    {
        !self.failed && self.done == step_count(self.platform)
    }

    /// The teardown that releases exactly the resources that the completed
    /// steps acquired: the device descriptor once the device node was opened,
    /// the control resource once it was opened.
    pub fn teardown(&self) -> (r: Teardown)
        requires
            self.wf(),
        ensures
            r.wf(),
            r@.plan == release_plan(
                completed(self@.platform, self@.done, Step::OpenDevice),
                completed(self@.platform, self@.done, Step::OpenControl),
            ),
            r@.pos == 0,
            r@.failures == 0,
    {
        let primary_open = self.done >= 1;
        let control_open = match self.platform {
            Platform::Linux => false,
            Platform::FreeBsd => self.done >= 4,
        };
        proof {
            let steps = create_steps(self.platform);
            if primary_open {
                assert(steps[0] == Step::OpenDevice);
            }
            assert(completed(self.platform, self.done as nat, Step::OpenDevice) ==> primary_open);
            if control_open {
                assert(steps[3] == Step::OpenControl);
            }
            assert(completed(self.platform, self.done as nat, Step::OpenControl) ==> control_open);
        }
        Teardown { primary_open, control_open, pos: 0, failures: 0 }
    }
}

/// Teardown never stops early: whatever the outcomes reported, each release
/// is issued in the plan's order, one per outcome, and a teardown begun at
/// the start issues the whole plan.
pub proof fn lemma_teardown_total(t: TeardownState, outcomes: Seq<bool>)
    requires
        t.pos + outcomes.len() <= t.plan.len(),
    ensures
        issued(t, outcomes) == t.plan.subrange(t.pos as int, (t.pos + outcomes.len()) as int),
        after_releases(t, outcomes).pos == t.pos + outcomes.len(),
        after_releases(t, outcomes).plan == t.plan,
    decreases outcomes.len(),
{
    if outcomes.len() > 0 {
        let t1 = after_release(t, outcomes[0]);
        lemma_teardown_total(t1, outcomes.drop_first());
        assert(issued(t, outcomes) =~= t.plan.subrange(t.pos as int, (t.pos + outcomes.len()) as int));
    } else {
        assert(issued(t, outcomes) =~= t.plan.subrange(t.pos as int, (t.pos + outcomes.len()) as int));
    }
}

/// On a platform with a control resource, a failure to close the device
/// descriptor is followed by destroying the interface and closing the
/// control resource.
pub proof fn lemma_close_failure_goes_on(platform: Platform, outcomes: Seq<bool>)
    requires
        platform == Platform::FreeBsd,
        outcomes.len() == 3,
        outcomes[0] == false,
    ensures
        ({
            let t = TeardownState {
                plan: release_plan(true, platform == Platform::FreeBsd),
                pos: 0,
                failures: 0,
            };
            issued(t, outcomes) == seq![
                Release::ClosePrimary,
                Release::DestroyInterface,
                Release::CloseControl,
            ]
        }),
{
    let t = TeardownState {
        plan: release_plan(true, platform == Platform::FreeBsd),
        pos: 0,
        failures: 0,
    };
    lemma_teardown_total(t, outcomes);
    assert(t.plan =~= seq![Release::ClosePrimary, Release::DestroyInterface, Release::CloseControl]);
    assert(t.plan.subrange(0, 3) =~= t.plan);
}

} // verus!
