//! The monitor of the native library.
//!
//! A monitor is made for a named source of events, is given match rules, and
//! is then told to receive. Each of these is a call into the native library,
//! which the caller makes. A [`Monitor`] says what the status of each call
//! means, and remembers what the native monitor has been given. An
//! [`Activation`] names the calls one by one, and asks for nothing after a
//! refusal.

use vstd::prelude::*;
use vstd::string::StringSliceAdditionalSpecFns;
use crate::context::{Context, Handle};
use crate::device::{bytes_of, Device, DeviceView};
use crate::error::Error;
use crate::name::{is_name, lemma_known_names, literal, CName};

verus! {

/// The name of a source of events.
#[derive(Debug)]
pub struct MonitorName {
    name: CName,
}

impl View for MonitorName {
    type V = Seq<u8>;

    /// The name, without the NUL byte at its end.
    closed spec fn view(&self) -> Seq<u8> {
        self.name@
    }
}

impl MonitorName {
    /// Makes one of its name. A name that holds a NUL byte is refused.
    pub fn new(name: &[u8]) -> (r: Result<MonitorName, Error>)
        ensures
            match r {
                Ok(n) => is_name(name@) && n@ == name@,
                Err(e) => !is_name(name@) && e == Error::InvalidName,
            },
    {
        match CName::new(name) {
            Ok(name) => Ok(MonitorName { name }),
            Err(e) => Err(e),
        }
    }

    /// The bytes to hand to the native library: the name and one NUL byte.
    pub fn as_bytes(&self) -> (bytes: &[u8])
        ensures
            bytes@ == self@.push(0u8),
            is_name(self@),
    {
        self.name.as_bytes()
    }
}

impl Clone for MonitorName {
    fn clone(&self) -> (n: MonitorName)
        ensures
            n@ == self@,
    {
        MonitorName { name: self.name.clone() }
    }
}

/// The source of the events that the device manager has processed, `udev`.
pub fn udev_monitor() -> (n: MonitorName)
    ensures
        n@ == "udev".spec_bytes(),
{
    proof {
        lemma_known_names();
    }
    MonitorName { name: literal("udev") }
}

/// The name of a subsystem of the kernel.
#[derive(Debug)]
pub struct Subsystem {
    name: CName,
}

impl View for Subsystem {
    type V = Seq<u8>;

    /// The name, without the NUL byte at its end.
    closed spec fn view(&self) -> Seq<u8> {
        self.name@
    }
}

impl Subsystem {
    /// Makes one of its name. A name that holds a NUL byte is refused.
    pub fn new(name: &[u8]) -> (r: Result<Subsystem, Error>)
        ensures
            match r {
                Ok(n) => is_name(name@) && n@ == name@,
                Err(e) => !is_name(name@) && e == Error::InvalidName,
            },
    {
        match CName::new(name) {
            Ok(name) => Ok(Subsystem { name }),
            Err(e) => Err(e),
        }
    }

    /// The bytes to hand to the native library: the name and one NUL byte.
    pub fn as_bytes(&self) -> (bytes: &[u8])
        ensures
            bytes@ == self@.push(0u8),
            is_name(self@),
    {
        self.name.as_bytes()
    }
}

impl Clone for Subsystem {
    fn clone(&self) -> (n: Subsystem)
        ensures
            n@ == self@,
    {
        Subsystem { name: self.name.clone() }
    }
}

/// The subsystem of USB, `usb`.
pub fn usb_subsystem() -> (n: Subsystem)
    ensures
        n@ == "usb".spec_bytes(),
{
    proof {
        lemma_known_names();
    }
    Subsystem { name: literal("usb") }
}

/// The name of a type of device.
#[derive(Debug)]
pub struct DeviceType {
    name: CName,
}

impl View for DeviceType {
    type V = Seq<u8>;

    /// The name, without the NUL byte at its end.
    closed spec fn view(&self) -> Seq<u8> {
        self.name@
    }
}

impl DeviceType {
    /// Makes one of its name. A name that holds a NUL byte is refused.
    pub fn new(name: &[u8]) -> (r: Result<DeviceType, Error>)
        ensures
            match r {
                Ok(n) => is_name(name@) && n@ == name@,
                Err(e) => !is_name(name@) && e == Error::InvalidName,
            },
    {
        match CName::new(name) {
            Ok(name) => Ok(DeviceType { name }),
            Err(e) => Err(e),
        }
    }

    /// The bytes to hand to the native library: the name and one NUL byte.
    pub fn as_bytes(&self) -> (bytes: &[u8])
        ensures
            bytes@ == self@.push(0u8),
            is_name(self@),
    {
        self.name.as_bytes()
    }
}

impl Clone for DeviceType {
    fn clone(&self) -> (n: DeviceType)
        ensures
            n@ == self@,
    {
        DeviceType { name: self.name.clone() }
    }
}

/// The type of a USB device, `usb_device`.
pub fn usb_device() -> (n: DeviceType)
    ensures
        n@ == "usb_device".spec_bytes(),
{
    proof {
        lemma_known_names();
    }
    DeviceType { name: literal("usb_device") }
}

/// Reads `libc::EAGAIN`, the error number with which a receive attempt on a
/// non-blocking socket says that nothing is queued. Its value is that of the
/// platform. All that is claimed of it is that it is not zero, which holds of
/// every value that libc gives it.
#[verifier::external_body]
fn eagain() -> (code: i32)
    ensures
        code != 0,
{
    libc::EAGAIN
}

/// The error number of the platform that stands for an empty queue. It is
/// never zero, so that it is told from a receive attempt that named no
/// error.
pub fn would_block_code() -> (code: i32)
    ensures
        code != 0,
{
    eagain()
}

/// A match rule. The kernel filters by the rules of a monitor, so that the
/// socket receives only what matches.
#[derive(Debug)]
pub enum Rule {
    /// Events of the devices of a subsystem.
    Subsystem(Subsystem),
    /// Events of the devices of a subsystem that are of a type.
    SubsystemDevtype(Subsystem, DeviceType),
    /// Events of the devices that carry a tag.
    Tag(CName),
}

/// What a [`Rule`] is, as plain values: the names, without their NUL bytes.
pub enum RuleView {
    Subsystem(Seq<u8>),
    SubsystemDevtype(Seq<u8>, Seq<u8>),
    Tag(Seq<u8>),
}

impl View for Rule {
    type V = RuleView;

    open spec fn view(&self) -> RuleView {
        match *self {
            Rule::Subsystem(s) => RuleView::Subsystem(s@),
            Rule::SubsystemDevtype(s, d) => RuleView::SubsystemDevtype(s@, d@),
            Rule::Tag(t) => RuleView::Tag(t@),
        }
    }
}

impl Clone for Rule {
    fn clone(&self) -> (r: Rule)
        ensures
            r@ == self@,
    {
        match self {
            Rule::Subsystem(s) => Rule::Subsystem(s.clone()),
            Rule::SubsystemDevtype(s, d) => Rule::SubsystemDevtype(s.clone(), d.clone()),
            Rule::Tag(t) => Rule::Tag(t.clone()),
        }
    }
}

/// The rules of a list, as plain values.
pub open spec fn rule_views(rules: Seq<Rule>) -> Seq<RuleView> {
    Seq::new(rules.len(), |i: int| rules[i]@)
}

/// Copies a list of rules.
pub fn clone_rules(rules: &Vec<Rule>) -> (copy: Vec<Rule>)
    ensures
        rule_views(copy@) == rule_views(rules@),
{
    let mut copy: Vec<Rule> = Vec::new();
    let mut i: usize = 0;
    while i < rules.len()
        invariant
            i <= rules@.len(),
            copy@.len() == i,
            forall|j: int| 0 <= j < i ==> (#[trigger] copy@[j])@ == rules@[j]@,
        decreases rules.len() - i,
    {
        copy.push(rules[i].clone());
        i = i + 1;
    }
    assert(rule_views(copy@) =~= rule_views(rules@));
    copy
}

/// A monitor of the native library, as a token, with what it has been given.
#[derive(Debug)]
pub struct Monitor {
    handle: Handle,
    context: Context,
    source: MonitorName,
    fd: i32,
    filters: Vec<Rule>,
    receiving: bool,
}

/// What a [`Monitor`] is, as plain values.
pub struct MonitorView {
    /// The token of the native object. Never zero.
    pub handle: usize,
    /// The token of the context that the monitor was made in.
    pub context: usize,
    /// The name of the source of events that the monitor was made for.
    pub source: Seq<u8>,
    /// The descriptor of the notification socket.
    pub fd: i32,
    /// The match rules that the native monitor has taken, in their order.
    pub filters: Seq<RuleView>,
    /// Whether the native monitor has been told to receive.
    pub receiving: bool,
}

impl MonitorView {
    /// The monitor after the native library has taken `rule`.
    pub open spec fn with_rule(self, rule: RuleView) -> MonitorView {
        MonitorView { filters: self.filters.push(rule), ..self }
    }

    /// The monitor after the native library has started to receive.
    pub open spec fn enabled(self) -> MonitorView {
        MonitorView { receiving: true, ..self }
    }
}

impl View for Monitor {
    type V = MonitorView;

    closed spec fn view(&self) -> MonitorView {
        MonitorView {
            handle: self.handle@,
            context: self.context@,
            source: self.source@,
            fd: self.fd,
            filters: rule_views(self.filters@),
            receiving: self.receiving,
        }
    }
}

/// What a receive attempt on the native monitor means. The native library
/// hands back the token of a device, or zero. With zero goes the error
/// number that the attempt left, which is zero where it left none, and
/// `would_block` is the error number that stands for an empty queue. A token
/// gives the device. Zero with the error number of the empty queue means
/// that nothing is queued. Zero with no error number means that the channel
/// has ended. Zero with any other error number is a failure of the attempt.
pub open spec fn received_device(
    raw: usize,
    errno: i32,
    would_block: i32,
    devpath: Option<Seq<u8>>,
    action: Option<Seq<u8>>,
) -> Result<DeviceView, Error> {
    if raw != 0 {
        Ok(DeviceView { handle: raw, devpath, action })
    } else if errno == would_block {
        Err(Error::WouldBlock)
    } else if errno == 0 {
        Err(Error::Closed)
    } else {
        Err(Error::Receive(Some(errno)))
    }
}

/// What a device that was received is, as plain values, or why none was.
pub open spec fn device_view(r: Result<Device, Error>) -> Result<DeviceView, Error> {
    match r {
        Ok(d) => Ok(d@),
        Err(e) => Err(e),
    }
}

/// What the status of a call into the native library means: a negative
/// status is a refusal, which is reported as `refusal`.
pub open spec fn accepted(status: i32, refusal: Error) -> Result<(), Error> {
    if status < 0 {
        Err(refusal)
    } else {
        Ok(())
    }
}

impl Monitor {
    /// Makes a monitor of the token that the native library gave for the
    /// source `name` in `context`, and of the descriptor of its socket. The
    /// library gives zero where it could not make a monitor, and no monitor
    /// is made of that. The new monitor has no match rule and does not
    /// receive.
    pub fn new_from_netlink(context: &Context, name: MonitorName, handle: usize, fd: i32) -> (m:
        Monitor)
        requires
            handle != 0,
        ensures
            m@ == (MonitorView {
                handle,
                context: context@,
                source: name@,
                fd,
                filters: Seq::empty(),
                receiving: false,
            }),
    {
        let m = Monitor {
            handle: Handle::new(handle),
            context: context.clone(),
            source: name,
            fd,
            filters: Vec::new(),
            receiving: false,
        };
        assert(m@.filters =~= Seq::empty());
        m
    }

    /// The token, for calls into the native library. It is never zero.
    pub fn as_ptr(&self) -> (handle: usize)
        ensures
            handle == self@.handle,
            handle != 0,
    {
        self.handle.get()
    }

    /// The descriptor of the notification socket.
    pub fn as_raw_fd(&self) -> (fd: i32)
        ensures
            fd == self@.fd,
    {
        self.fd
    }

    /// Whether the native monitor has been told to receive.
    pub fn is_receiving(&self) -> (r: bool)
        ensures
            r == self@.receiving,
    {
        self.receiving
    }

    /// How many match rules the native monitor has taken.
    pub fn filter_count(&self) -> (n: usize)
        ensures
            n == self@.filters.len(),
    {
        self.filters.len()
    }

    /// Takes the status with which the native library answered `rule`. A
    /// negative status is its refusal, and the monitor stays as it was; any
    /// other status adds the rule after those that the monitor holds.
    pub fn filter_add_match(&mut self, rule: Rule, status: i32) -> (r: Result<(), Error>)
        ensures
            r == accepted(status, Error::Filter),
            final(self)@ == (if status < 0 {
                old(self)@
            } else {
                old(self)@.with_rule(rule@)
            }),
    {
        if status < 0 {
            return Err(Error::Filter);
        }
        let ghost before = self.filters@;
        self.filters.push(rule);
        assert(rule_views(self.filters@) =~= rule_views(before).push(rule@));
        Ok(())
    }

    /// Takes the status with which the native library answered the match
    /// rule for `subsystem` and `devtype`. A negative status is its refusal,
    /// and the monitor stays as it was; any other status adds the rule after
    /// those that the monitor holds.
    pub fn filter_add_match_subsystem_devtype(
        &mut self,
        subsystem: Subsystem,
        devtype: DeviceType,
        status: i32,
    ) -> (r: Result<(), Error>)
        ensures
            r == accepted(status, Error::Filter),
            final(self)@ == (if status < 0 {
                old(self)@
            } else {
                old(self)@.with_rule(RuleView::SubsystemDevtype(subsystem@, devtype@))
            }),
    {
        self.filter_add_match(Rule::SubsystemDevtype(subsystem, devtype), status)
    }

    /// The same for the rule that matches every device of `subsystem`.
    pub fn filter_add_match_subsystem(&mut self, subsystem: Subsystem, status: i32) -> (r: Result<
        (),
        Error,
    >)
        ensures
            r == accepted(status, Error::Filter),
            final(self)@ == (if status < 0 {
                old(self)@
            } else {
                old(self)@.with_rule(RuleView::Subsystem(subsystem@))
            }),
    {
        self.filter_add_match(Rule::Subsystem(subsystem), status)
    }

    /// The same for the rule that matches every device that carries `tag`.
    pub fn filter_add_match_tag(&mut self, tag: CName, status: i32) -> (r: Result<(), Error>)
        ensures
            r == accepted(status, Error::Filter),
            final(self)@ == (if status < 0 {
                old(self)@
            } else {
                old(self)@.with_rule(RuleView::Tag(tag@))
            }),
    {
        self.filter_add_match(Rule::Tag(tag), status)
    }

    /// Takes the status with which the native library answered the order to
    /// receive. A negative status is its refusal, and the monitor stays as it
    /// was; after any other status the monitor receives.
    pub fn enable_receiving(&mut self, status: i32) -> (r: Result<(), Error>)
        ensures
            r == accepted(status, Error::Enable),
            final(self)@ == (if status < 0 {
                old(self)@
            } else {
                old(self)@.enabled()
            }),
    {
        if status < 0 {
            return Err(Error::Enable);
        }
        self.receiving = true;
        Ok(())
    }

    /// Takes what one receive attempt on the native monitor gave: the token
    /// of a device, with the properties that were read from it, or zero,
    /// with the error number that the attempt left (zero where it left
    /// none). `would_block` is the error number that stands for an empty
    /// queue, as [`would_block_code`] gives it. Only that error number is
    /// reported as [`Error::WouldBlock`]; no error number at all is the end
    /// of the channel, and every other one a failure that carries it.
    pub fn receive_device(
        &self,
        raw: usize,
        errno: i32,
        would_block: i32,
        devpath: Option<Vec<u8>>,
        action: Option<Vec<u8>>,
    ) -> (r: Result<Device, Error>)
        ensures
            device_view(r) == received_device(
                raw,
                errno,
                would_block,
                bytes_of(devpath),
                bytes_of(action),
            ),
    {
        if raw != 0 {
            Ok(Device::from_raw_part(raw, devpath, action))
        } else if errno == would_block {
            Err(Error::WouldBlock)
        } else if errno == 0 {
            Err(Error::Closed)
        } else {
            Err(Error::Receive(Some(errno)))
        }
    }
}

impl Clone for Monitor {
    /// A second handle on the same native monitor, which remembers the same.
    fn clone(&self) -> (m: Monitor)
        ensures
            m@ == self@,
    {
        Monitor {
            handle: Handle::new(self.handle.get()),
            context: self.context.clone(),
            source: self.source.clone(),
            fd: self.fd,
            filters: clone_rules(&self.filters),
            receiving: self.receiving,
        }
    }
}

/// A call into the native library that sets up a monitor.
#[derive(Debug)]
pub enum NativeCall {
    /// Give the monitor a match rule.
    Filter(Rule),
    /// Tell the monitor to receive.
    EnableReceiving,
}

/// What a [`NativeCall`] is, as plain values.
pub enum NativeCallView {
    Filter(RuleView),
    EnableReceiving,
}

impl View for NativeCall {
    type V = NativeCallView;

    open spec fn view(&self) -> NativeCallView {
        match *self {
            NativeCall::Filter(rule) => NativeCallView::Filter(rule@),
            NativeCall::EnableReceiving => NativeCallView::EnableReceiving,
        }
    }
}

/// The setting up of a monitor, between two calls into the native library:
/// the monitor, and the rules that it has still to be given.
#[derive(Debug)]
pub struct Activation {
    monitor: Monitor,
    pending: Vec<Rule>,
    next: usize,
}

/// What an [`Activation`] is, as plain values.
pub struct ActivationView {
    pub monitor: MonitorView,
    /// The rules that the monitor has still to be given, in their order.
    pub pending: Seq<RuleView>,
}

/// What follows one answer to an activation.
#[derive(Debug)]
pub enum ActivationStep {
    /// Another call is needed: make the one that the activation asks for.
    Call(Activation),
    /// The monitor holds every rule and receives.
    Done(Monitor),
    /// The native library refused a call. Nothing more is asked of it.
    Failed(Error),
}

/// What an [`ActivationStep`] is, as plain values.
pub enum ActivationStepView {
    Call(ActivationView),
    Done(MonitorView),
    Failed(Error),
}

impl View for Activation {
    type V = ActivationView;

    closed spec fn view(&self) -> ActivationView {
        ActivationView {
            monitor: self.monitor@,
            pending: rule_views(self.pending@).skip(self.next as int),
        }
    }
}

impl View for ActivationStep {
    type V = ActivationStepView;

    open spec fn view(&self) -> ActivationStepView {
        match *self {
            ActivationStep::Call(a) => ActivationStepView::Call(a@),
            ActivationStep::Done(m) => ActivationStepView::Done(m@),
            ActivationStep::Failed(e) => ActivationStepView::Failed(e),
        }
    }
}

impl ActivationView {
    /// The call that the activation waits for: the first rule that is still
    /// to be given, and the order to receive once every rule is given.
    pub open spec fn request(self) -> NativeCallView {
        if self.pending.len() > 0 {
            NativeCallView::Filter(self.pending[0])
        } else {
            NativeCallView::EnableReceiving
        }
    }

    /// What follows when the native library answers the call that the
    /// activation waits for with `status`. A refusal ends the activation
    /// with the error of the call that was refused. Any other status moves
    /// it on: the rule is with the monitor, or the monitor receives and the
    /// activation is done.
    pub open spec fn next(self, status: i32) -> ActivationStepView {
        if self.pending.len() > 0 {
            if status < 0 {
                ActivationStepView::Failed(Error::Filter)
            } else {
                ActivationStepView::Call(
                    ActivationView {
                        monitor: self.monitor.with_rule(self.pending[0]),
                        pending: self.pending.drop_first(),
                    },
                )
            }
        } else {
            if status < 0 {
                ActivationStepView::Failed(Error::Enable)
            } else {
                ActivationStepView::Done(self.monitor.enabled())
            }
        }
    }

    /// The monitor with every pending rule given and receiving: what the
    /// activation ends in where no call is refused.
    pub open spec fn completed(self) -> MonitorView {
        MonitorView { filters: self.monitor.filters + self.pending, ..self.monitor }.enabled()
    }

    /// What the activation ends in when the native library answers its
    /// calls with `statuses`, one after the other: it stops at the first
    /// refusal, and at the end of the answers where they run out.
    pub open spec fn run(self, statuses: Seq<i32>) -> ActivationStepView
        decreases statuses.len(),
    {
        if statuses.len() == 0 {
            ActivationStepView::Call(self)
        } else {
            match self.next(statuses[0]) {
                ActivationStepView::Call(a) => a.run(statuses.drop_first()),
                ended => ended,
            }
        }
    }
}

impl Activation {
    /// Starts to set up `monitor` with `rules`, in their order.
    pub fn begin(monitor: Monitor, rules: Vec<Rule>) -> (a: Activation)
        ensures
            a@ == (ActivationView { monitor: monitor@, pending: rule_views(rules@) }),
    {
        let a = Activation { monitor, pending: rules, next: 0 };
        assert(a@.pending =~= rule_views(rules@));
        a
    }

    #[verifier::type_invariant]
    spec fn in_range(self) -> bool {
        self.next <= self.pending@.len()
    }

    /// The monitor that is being set up.
    pub fn monitor(&self) -> (m: &Monitor)
        ensures
            m@ == self@.monitor,
    {
        &self.monitor
    }

    /// The call to make now.
    pub fn request(&self) -> (call: NativeCall)
        ensures
            call@ == self@.request(),
    {
        proof {
            use_type_invariant(self);
        }
        if self.next < self.pending.len() {
            NativeCall::Filter(self.pending[self.next].clone())
        } else {
            NativeCall::EnableReceiving
        }
    }

    /// Takes the status with which the native library answered the call
    /// that was asked for. A negative status is its refusal: the activation
    /// ends with the error of that call, and no call is asked for after it.
    /// Any other status hands the rule to the monitor, or, once every rule is
    /// given, ends the activation with a monitor that receives.
    pub fn advance(self, status: i32) -> (step: ActivationStep)
        ensures
            step@ == self@.next(status),
    {
        proof {
            use_type_invariant(&self);
        }
        let Activation { monitor, pending, next } = self;
        let mut monitor = monitor;
        let ghost before = rule_views(pending@).skip(next as int);
        if next < pending.len() {
            let rule = pending[next].clone();
            assert(rule@ == before[0]);
            match monitor.filter_add_match(rule, status) {
                Err(e) => ActivationStep::Failed(e),
                Ok(()) => {
                    let a = Activation { monitor, pending, next: next + 1 };
                    assert(a@.pending =~= before.drop_first());
                    ActivationStep::Call(a)
                },
            }
        } else {
            assert(before.len() == 0);
            match monitor.enable_receiving(status) {
                Err(e) => ActivationStep::Failed(e),
                Ok(()) => ActivationStep::Done(monitor),
            }
        }
    }
}

/// Where the native library refuses no call, an activation ends after one
/// call for each pending rule and one more: the monitor then holds its own
/// rules and after them the pending ones, in their order, and receives.
pub proof fn law_activation_gives_every_rule(a: ActivationView, statuses: Seq<i32>)
    requires
        statuses.len() == a.pending.len() + 1,
        forall|i: int| 0 <= i < statuses.len() ==> statuses[i] >= 0,
    ensures
        a.run(statuses) == ActivationStepView::Done(a.completed()),
    decreases statuses.len(),
{
    if a.pending.len() > 0 {
        let rest = statuses.drop_first();
        let b = ActivationView {
            monitor: a.monitor.with_rule(a.pending[0]),
            pending: a.pending.drop_first(),
        };
        law_activation_gives_every_rule(b, rest);
        assert(b.monitor.filters + b.pending =~= a.monitor.filters + a.pending);
    } else {
        assert(a.monitor.filters + a.pending =~= a.monitor.filters);
        assert(statuses.drop_first().len() == 0);
    }
}

/// Where the native library refuses the call at `refused` and no call before
/// it, the activation fails there, whatever is answered after it: with
/// [`Error::Filter`] where a rule was refused, and with [`Error::Enable`]
/// where the order to receive was. The rules after a refused rule are not
/// given, and the monitor is not told to receive.
pub proof fn law_activation_stops_at_a_refusal(
    a: ActivationView,
    statuses: Seq<i32>,
    refused: int,
)
    requires
        0 <= refused < statuses.len(),
        refused <= a.pending.len(),
        statuses[refused] < 0,
        forall|i: int| 0 <= i < refused ==> statuses[i] >= 0,
    ensures
        a.run(statuses) == ActivationStepView::Failed(
            if refused < a.pending.len() {
                Error::Filter
            } else {
                Error::Enable
            },
        ),
        a.run(statuses) == a.run(statuses.take(refused + 1)),
    decreases statuses.len(),
{
    let short = statuses.take(refused + 1);
    assert(short[0] == statuses[0]);
    if refused > 0 {
        let b = ActivationView {
            monitor: a.monitor.with_rule(a.pending[0]),
            pending: a.pending.drop_first(),
        };
        law_activation_stops_at_a_refusal(b, statuses.drop_first(), refused - 1);
        assert(short.drop_first() =~= statuses.drop_first().take(refused));
    }
}

} // verus!
