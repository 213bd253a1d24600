//! The connection sequencer: credentials, the stage machine that drives the
//! wireless interface up, and the laws that hold of every run.
//!
//! The sequencer owns the decisions alone. The driver performs each stage's
//! action on the hardware and reports how it went; the sequencer says what
//! happens next. A run is linear: configure, start, associate, obtain an
//! address, probe the gateway. Any stage failure is fatal to the run except
//! the reachability probe, whose outcome is advisory.

use vstd::prelude::*;

use crate::MAX_PASS_BYTES;
use crate::MAX_SSID_BYTES;

verus! {

/// The reasons a bootstrap run can fail, one per fallible stage.
#[derive(Clone, Copy, Debug, PartialEq, Eq, Structural)]
pub enum ConnectError {
    /// Wrapping the raw interface with its control surface failed.
    Init,
    /// The station configuration was rejected, or the credentials do not fit
    /// their fixed capacities.
    Config,
    /// The driver could not start the interface.
    Start,
    /// Association with the access point failed.
    Assoc,
    /// No usable address was assigned to the link.
    Address,
}

/// An immutable pair of station credentials, both inside their fixed
/// capacity bounds.
pub struct Credentials {
    ssid: Vec<u8>,
    pass: Vec<u8>,
}

/// Copies a byte slice into a fixed-capacity vector, if it fits.
///
/// Relies on `heapless::Vec::<u8, N>::from_slice`, which returns `Ok` with an
/// unchanged copy exactly when the slice length is at most the capacity `N`,
/// and `Err` otherwise.
#[verifier::external_body]
fn bounded_copy<const N: usize>(s: &[u8]) -> (r: Option<Vec<u8>>)
    ensures
        r is Some <==> s@.len() <= N,
        (r matches Some(v) ==> v@ == s@),
{
    match heapless::Vec::<u8, N>::from_slice(s) {
        Ok(v) => Some(v.as_slice().to_vec()),
        Err(()) => None,
    }
}

impl Credentials {
    /// The network identifier bytes.
    pub closed spec fn ssid_view(&self) -> Seq<u8> {
        self.ssid@
    }

    /// The shared secret bytes.
    pub closed spec fn pass_view(&self) -> Seq<u8> {
        self.pass@
    }

    /// Both fields fit their fixed capacities.
    pub open spec fn wf(&self) -> bool {
        self.ssid_view().len() <= MAX_SSID_BYTES && self.pass_view().len() <= MAX_PASS_BYTES
    }

    /// Builds a credential pair, failing exactly when either field exceeds
    /// its capacity. Nothing has touched the network when this fails.
    pub fn new(ssid: &[u8], pass: &[u8]) -> (r: Result<Credentials, ConnectError>)
        ensures
            r is Ok <==> (ssid@.len() <= MAX_SSID_BYTES && pass@.len() <= MAX_PASS_BYTES),
            (r matches Ok(c) ==> c.wf() && c.ssid_view() == ssid@ && c.pass_view() == pass@),
            (r matches Err(e) ==> e == ConnectError::Config),
    {
        let s = match bounded_copy::<MAX_SSID_BYTES>(ssid) {
            Some(s) => s,
            None => {
                return Err(ConnectError::Config);
            },
        };
        let p = match bounded_copy::<MAX_PASS_BYTES>(pass) {
            Some(p) => p,
            None => {
                return Err(ConnectError::Config);
            },
        };
        Ok(Credentials { ssid: s, pass: p })
    }

    /// The network identifier, for handing to the driver.
    pub fn ssid(&self) -> (s: &Vec<u8>)
        ensures
            s@ == self.ssid_view(),
    {
        &self.ssid
    }

    /// The shared secret, for handing to the driver.
    pub fn pass(&self) -> (p: &Vec<u8>)
        ensures
            p@ == self.pass_view(),
    {
        &self.pass
    }
}

/// The stages of a bootstrap run, in the order they are entered.
#[derive(Clone, Copy, Debug, PartialEq, Eq, Structural)]
pub enum Stage {
    /// The raw interface still needs its control surface.
    Unconfigured,
    /// The station configuration is being applied.
    Configuring,
    /// Waiting for the driver to report the interface started.
    Starting,
    /// Waiting for the driver to report association with the access point.
    Associating,
    /// Waiting for the link layer to report an assigned address.
    AddressPending,
    /// Connected; the gateway reachability probe is outstanding.
    Reachable,
    /// Terminal: the connection handle can be taken.
    Done,
}

/// The address assignment the link layer reported. A zero address means no
/// assignment.
#[derive(Clone, Copy, Debug, PartialEq, Eq, Structural)]
pub struct IpInfo {
    /// The station's own address.
    pub addr: u32,
    /// The default gateway derived from the assignment.
    pub gateway: u32,
}

/// One notification from the driver: how the pending stage's action went.
#[derive(Clone, Copy, Debug)]
pub enum Event {
    /// The raw interface was wrapped with its control surface, or not.
    Wrapped(bool),
    /// The station configuration was applied, or rejected.
    Configured(bool),
    /// The interface started, or failed to.
    Started(bool),
    /// Association with the access point succeeded, or failed.
    Associated(bool),
    /// The link layer reported an assignment, or none arrived in time.
    AddressReported(Option<IpInfo>),
    /// The reachability probe to the gateway succeeded, or failed.
    Probed(bool),
}

/// What the driver must do next for a given stage.
#[derive(Clone, Copy, Debug, PartialEq, Eq, Structural)]
pub enum Action {
    /// Wrap the raw interface with its asynchronous control surface.
    WrapInterface,
    /// Apply the station configuration built from the credentials.
    ApplyConfiguration,
    /// Request an interface start and await the started notification.
    RequestStart,
    /// Request association and await the connected notification.
    RequestAssociation,
    /// Await the address-assigned notification.
    AwaitAddress,
    /// Probe the gateway once; the outcome is advisory.
    ProbeGateway,
    /// Nothing: the run is complete.
    Finished,
}

/// The live connection a completed run produces; held for the process
/// lifetime.
#[derive(Clone, Copy, Debug, PartialEq, Eq, Structural)]
pub struct ConnectionHandle {
    /// The address assignment the handle was produced with.
    pub ip: IpInfo,
}

/// The connection sequencer: the pending stage, and the assignment once one
/// arrived.
#[derive(Clone, Copy, Debug)]
pub struct Sequencer {
    /// The stage whose action is pending.
    pub stage: Stage,
    /// The assignment reported by the link layer, once it arrived.
    pub ip: Option<IpInfo>,
}

/// The action each stage asks of the driver.
pub open spec fn action_of(stage: Stage) -> Action {
    match stage {
        Stage::Unconfigured => Action::WrapInterface,
        Stage::Configuring => Action::ApplyConfiguration,
        Stage::Starting => Action::RequestStart,
        Stage::Associating => Action::RequestAssociation,
        Stage::AddressPending => Action::AwaitAddress,
        Stage::Reachable => Action::ProbeGateway,
        Stage::Done => Action::Finished,
    }
}

/// The transition relation of the sequencer: from the current state and one
/// driver notification to the next state, and the stage's error if it
/// failed. A failed stage leaves the state where it was; a notification for
/// a stage other than the pending one changes nothing. The one exception to
/// failure is the reachability probe: its outcome never disturbs the run.
pub open spec fn step_spec(s: Sequencer, ev: Event) -> (Sequencer, Option<ConnectError>) {
    match (s.stage, ev) {
        (Stage::Unconfigured, Event::Wrapped(true)) => (
            (Sequencer { stage: Stage::Configuring, ip: s.ip }),
            None,
        ),
        (Stage::Unconfigured, Event::Wrapped(false)) => (s, Some(ConnectError::Init)),
        (Stage::Configuring, Event::Configured(true)) => (
            (Sequencer { stage: Stage::Starting, ip: s.ip }),
            None,
        ),
        (Stage::Configuring, Event::Configured(false)) => (s, Some(ConnectError::Config)),
        (Stage::Starting, Event::Started(true)) => (
            (Sequencer { stage: Stage::Associating, ip: s.ip }),
            None,
        ),
        (Stage::Starting, Event::Started(false)) => (s, Some(ConnectError::Start)),
        (Stage::Associating, Event::Associated(true)) => (
            (Sequencer { stage: Stage::AddressPending, ip: s.ip }),
            None,
        ),
        (Stage::Associating, Event::Associated(false)) => (s, Some(ConnectError::Assoc)),
        (Stage::AddressPending, Event::AddressReported(Some(info))) => {
            if info.addr != 0 {
                ((Sequencer { stage: Stage::Reachable, ip: Some(info) }), None)
            } else {
                (s, Some(ConnectError::Address))
            }
        },
        (Stage::AddressPending, Event::AddressReported(None)) => (s, Some(ConnectError::Address)),
        (Stage::Reachable, Event::Probed(_)) => ((Sequencer { stage: Stage::Done, ip: s.ip }), None),
        _ => (s, None),
    }
}

impl Sequencer {
    /// A sequencer is well formed when every stage at or past address
    /// assignment holds a non-zero address.
    pub open spec fn wf(&self) -> bool {
        (self.stage is Reachable || self.stage is Done) ==> (self.ip matches Some(i)
            && i.addr != 0)
    }

    /// A fresh sequencer, before anything has happened.
    pub fn new() -> (s: Sequencer)
        ensures
            s.stage is Unconfigured,
            s.ip is None,
            s.wf(),
    {
        Sequencer { stage: Stage::Unconfigured, ip: None }
    }

    /// The action the driver must perform for the pending stage.
    pub fn next_action(&self) -> (a: Action)
        ensures
            a == action_of(self.stage),
    {
        match self.stage {
            Stage::Unconfigured => Action::WrapInterface,
            Stage::Configuring => Action::ApplyConfiguration,
            Stage::Starting => Action::RequestStart,
            Stage::Associating => Action::RequestAssociation,
            Stage::AddressPending => Action::AwaitAddress,
            Stage::Reachable => Action::ProbeGateway,
            Stage::Done => Action::Finished,
        }
    }

    /// Feed one driver notification to the sequencer. Returns the stage's
    /// error exactly when the transition relation produces one; the state
    /// moves as the relation says.
    pub fn on_event(&mut self, ev: Event) -> (r: Result<(), ConnectError>)
        ensures
            *final(self) == step_spec(*old(self), ev).0,
            (match r {
                Ok(()) => step_spec(*old(self), ev).1 is None,
                Err(e) => step_spec(*old(self), ev).1 == Some(e),
            }),
    {
        match (self.stage, ev) {
            (Stage::Unconfigured, Event::Wrapped(true)) => {
                self.stage = Stage::Configuring;
                Ok(())
            },
            (Stage::Unconfigured, Event::Wrapped(false)) => Err(ConnectError::Init),
            (Stage::Configuring, Event::Configured(true)) => {
                self.stage = Stage::Starting;
                Ok(())
            },
            (Stage::Configuring, Event::Configured(false)) => Err(ConnectError::Config),
            (Stage::Starting, Event::Started(true)) => {
                self.stage = Stage::Associating;
                Ok(())
            },
            (Stage::Starting, Event::Started(false)) => Err(ConnectError::Start),
            (Stage::Associating, Event::Associated(true)) => {
                self.stage = Stage::AddressPending;
                Ok(())
            },
            (Stage::Associating, Event::Associated(false)) => Err(ConnectError::Assoc),
            (Stage::AddressPending, Event::AddressReported(Some(info))) => {
                if info.addr != 0 {
                    self.stage = Stage::Reachable;
                    self.ip = Some(info);
                    Ok(())
                } else {
                    Err(ConnectError::Address)
                }
            },
            (Stage::AddressPending, Event::AddressReported(None)) => Err(ConnectError::Address),
            (Stage::Reachable, Event::Probed(_)) => {
                self.stage = Stage::Done;
                Ok(())
            },
            _ => Ok(()),
        }
    }

    /// Take the connection handle, available exactly when the run is done.
    pub fn finish(&self) -> (r: Option<ConnectionHandle>)
        ensures
            r is Some <==> (self.stage is Done && self.ip is Some),
            (r matches Some(h) ==> self.ip == Some(h.ip)),
    {
        match (self.stage, self.ip) {
            (Stage::Done, Some(info)) => Some(ConnectionHandle { ip: info }),
            _ => None,
        }
    }
}

/// Folds a series of notifications through the transition relation,
/// stopping at the first stage failure.
pub open spec fn run_spec(s: Sequencer, evs: Seq<Event>) -> (Sequencer, Option<ConnectError>)
    decreases evs.len(),
{
    if evs.len() == 0 {
        (s, None)
    } else {
        let stepped = step_spec(s, evs[0]);
        if stepped.1 is Some {
            stepped
        } else {
            run_spec(stepped.0, evs.skip(1))
        }
    }
}

impl Sequencer {
    /// Feed a whole series of notifications, in order, stopping at the
    /// first stage failure.
    pub fn drive(&mut self, events: &Vec<Event>) -> (r: Result<(), ConnectError>)
        ensures
            *final(self) == run_spec(*old(self), events@).0,
            (match r {
                Ok(()) => run_spec(*old(self), events@).1 is None,
                Err(e) => run_spec(*old(self), events@).1 == Some(e),
            }),
    {
        let mut i: usize = 0;
        proof {
            assert(events@.skip(0) =~= events@);
        }
        while i < events.len()
            invariant
                i <= events.len(),
                run_spec(*old(self), events@) == run_spec(*self, events@.skip(i as int)),
            decreases events.len() - i,
        {
            let ev = events[i];
            proof {
                assert(events@.skip(i as int)[0] == events@[i as int]);
                assert(events@.skip(i as int).skip(1) =~= events@.skip(i as int + 1));
            }
            let r = self.on_event(ev);
            i = i + 1;
            if let Err(e) = r {
                return Err(e);
            }
        }
        Ok(())
    }
}

/// The state of a fresh sequencer.
pub open spec fn initial() -> Sequencer {
    Sequencer { stage: Stage::Unconfigured, ip: None }
}

/// Whether a series of notifications resolves a fresh run: some stage
/// fails, or the sequence completes. A driver keeps delivering
/// notifications until one of the two holds.
pub open spec fn resolves(evs: Seq<Event>) -> bool {
    run_spec(initial(), evs).1 is Some || run_spec(initial(), evs).0.stage is Done
}

/// The outcome bring-up owes for given credentials and driver
/// notifications: the credential failure before anything else, otherwise
/// the first stage failure, otherwise the handle the completed run holds.
pub open spec fn bring_up_spec(ssid: Seq<u8>, pass: Seq<u8>, evs: Seq<Event>) -> Result<
    ConnectionHandle,
    ConnectError,
> {
    if ssid.len() > MAX_SSID_BYTES || pass.len() > MAX_PASS_BYTES {
        Err(ConnectError::Config)
    } else {
        let run = run_spec(initial(), evs);
        match run.1 {
            Some(e) => Err(e),
            None => if run.0.stage is Done && run.0.ip is Some {
                match run.0.ip {
                    Some(info) => Ok(ConnectionHandle { ip: info }),
                    None => Err(ConnectError::Address),
                }
            } else {
                Err(ConnectError::Address)
            },
        }
    }
}

/// Bring the station up: validate the credentials, then drive a fresh
/// sequencer through the driver's notifications. Returns the connection
/// handle on completion, and the first stage's error otherwise; oversized
/// credentials fail before any notification is consumed, whatever the
/// notifications hold.
pub fn bring_up(ssid: &[u8], pass: &[u8], events: &Vec<Event>) -> (r: Result<
    ConnectionHandle,
    ConnectError,
>)
    requires
        ssid@.len() > MAX_SSID_BYTES || pass@.len() > MAX_PASS_BYTES || resolves(events@),
    ensures
        r == bring_up_spec(ssid@, pass@, events@),
        ssid@.len() > MAX_SSID_BYTES || pass@.len() > MAX_PASS_BYTES ==> r == Err::<
            ConnectionHandle,
            ConnectError,
        >(ConnectError::Config),
        (r matches Ok(h) ==> h.ip.addr != 0),
{
    match Credentials::new(ssid, pass) {
        Err(e) => {
            return Err(e);
        },
        Ok(_) => {},
    }
    let mut machine = Sequencer::new();
    proof {
        assert(machine == initial());
    }
    match machine.drive(events) {
        Err(e) => Err(e),
        Ok(()) => {
            proof {
                lemma_run_preserves_wf(initial(), events@);
            }
            match machine.finish() {
                Some(h) => Ok(h),
                None => Err(ConnectError::Address),
            }
        },
    }
}

/// Law: the transition relation preserves well-formedness.
pub proof fn lemma_step_preserves_wf(s: Sequencer, ev: Event)
    requires
        s.wf(),
    ensures
        step_spec(s, ev).0.wf(),
{
}

/// Law: a stage error can only arise before the reachability stage; once
/// the run has reached it, no notification fails the run.
pub proof fn lemma_error_only_before_reachable(s: Sequencer, ev: Event)
    ensures
        step_spec(s, ev).1 is Some ==> !(s.stage is Reachable) && !(s.stage is Done),
{
}

/// Law: the probe outcome and the run outcome are independent. Whatever the
/// reachability probe reports, the sequencer moves to the same state and
/// returns no error.
pub proof fn lemma_probe_outcome_irrelevant(s: Sequencer, a: bool, b: bool)
    ensures
        step_spec(s, Event::Probed(a)) == step_spec(s, Event::Probed(b)),
{
}

/// Law: the probe outcome never changes the result of a whole run.
pub proof fn lemma_run_probe_independent(s: Sequencer, evs: Seq<Event>, a: bool, b: bool)
    ensures
        run_spec(s, evs.push(Event::Probed(a))) == run_spec(s, evs.push(Event::Probed(b))),
    decreases evs.len(),
{
    let ea = Event::Probed(a);
    let eb = Event::Probed(b);
    if evs.len() == 0 {
        assert(evs.push(ea)[0] == ea);
        assert(evs.push(eb)[0] == eb);
        assert(evs.push(ea).skip(1) =~= Seq::<Event>::empty());
        assert(evs.push(eb).skip(1) =~= Seq::<Event>::empty());
        lemma_probe_outcome_irrelevant(s, a, b);
    } else {
        assert(evs.push(ea)[0] == evs[0]);
        assert(evs.push(eb)[0] == evs[0]);
        assert(evs.push(ea).skip(1) =~= evs.skip(1).push(ea));
        assert(evs.push(eb).skip(1) =~= evs.skip(1).push(eb));
        let stepped = step_spec(s, evs[0]);
        if stepped.1 is None {
            lemma_run_probe_independent(stepped.0, evs.skip(1), a, b);
        }
    }
}

/// Law: the probe outcome never changes what bring-up returns. Once the
/// address stage has succeeded the handle is owed either way; before it,
/// the probe notification is not even consumed.
pub proof fn lemma_bring_up_probe_independent(
    ssid: Seq<u8>,
    pass: Seq<u8>,
    evs: Seq<Event>,
    a: bool,
    b: bool,
)
    ensures
        bring_up_spec(ssid, pass, evs.push(Event::Probed(a))) == bring_up_spec(
            ssid,
            pass,
            evs.push(Event::Probed(b)),
        ),
{
    lemma_run_probe_independent(initial(), evs, a, b);
}

/// Law: whole runs preserve well-formedness.
pub proof fn lemma_run_preserves_wf(s: Sequencer, evs: Seq<Event>)
    requires
        s.wf(),
    ensures
        run_spec(s, evs).0.wf(),
    decreases evs.len(),
{
    if evs.len() > 0 {
        lemma_step_preserves_wf(s, evs[0]);
        let stepped = step_spec(s, evs[0]);
        if stepped.1 is None {
            lemma_run_preserves_wf(stepped.0, evs.skip(1));
        }
    }
}

/// Law: a failed run stopped before the reachability stage. The state a
/// failed run ends in — the state whose pending action failed — is neither
/// reachable nor done.
pub proof fn lemma_failed_run_stopped_early(s: Sequencer, evs: Seq<Event>)
    ensures
        run_spec(s, evs).1 is Some ==> !(run_spec(s, evs).0.stage is Reachable) && !(run_spec(
            s,
            evs,
        ).0.stage is Done),
    decreases evs.len(),
{
    if evs.len() > 0 {
        lemma_error_only_before_reachable(s, evs[0]);
        let stepped = step_spec(s, evs[0]);
        if stepped.1 is None {
            lemma_failed_run_stopped_early(stepped.0, evs.skip(1));
        }
    }
}

/// Law: a run that completes from a well-formed state holds a non-zero
/// address; a returned handle's network address is never empty.
pub proof fn lemma_done_has_address(s: Sequencer, evs: Seq<Event>)
    requires
        s.wf(),
        run_spec(s, evs).0.stage is Done,
    ensures
        run_spec(s, evs).0.ip matches Some(i) && i.addr != 0,
{
    lemma_run_preserves_wf(s, evs);
}

} // verus!
