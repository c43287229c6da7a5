//! Setting up a monitor before it listens.

use vstd::prelude::*;
use crate::error::Error;
use crate::monitor::{rule_views, Activation, ActivationView, DeviceType, Monitor, Rule, RuleView, Subsystem};
use crate::name::{is_name, CName};

verus! {

/// Collects match rules for a monitor. Each rule is added after those that
/// are there, and the builder is handed on.
#[derive(Debug)]
pub struct MonitorBuilder {
    rules: Vec<Rule>,
}

impl View for MonitorBuilder {
    type V = Seq<RuleView>;

    /// The rules, in the order in which they were added.
    closed spec fn view(&self) -> Seq<RuleView> {
        rule_views(self.rules@)
    }
}

impl MonitorBuilder {
    /// A builder without rules. It never fails.
    pub fn new() -> (r: Result<MonitorBuilder, Error>)
        ensures
            r matches Ok(b) && b@ == Seq::<RuleView>::empty(),
    {
        let b = MonitorBuilder { rules: Vec::new() };
        assert(b@ =~= Seq::<RuleView>::empty());
        Ok(b)
    }

    /// Adds `rule` after the rules that are there.
    fn with(self, rule: Rule) -> (b: MonitorBuilder)
        ensures
            b@ == self@.push(rule@),
    {
        let mut rules = self.rules;
        let ghost before = rules@;
        rules.push(rule);
        assert(rule_views(rules@) =~= rule_views(before).push(rule@));
        MonitorBuilder { rules }
    }

    /// Adds a rule that matches the events of the devices of `subsystem`. A
    /// name that holds a NUL byte is refused.
    pub fn match_subsystem(self, subsystem: &[u8]) -> (r: Result<MonitorBuilder, Error>)
        ensures
            match r {
                Ok(b) => is_name(subsystem@) && b@ == self@.push(RuleView::Subsystem(subsystem@)),
                Err(e) => !is_name(subsystem@) && e == Error::InvalidName,
            },
    {
        match Subsystem::new(subsystem) {
            Ok(s) => Ok(self.with(Rule::Subsystem(s))),
            Err(e) => Err(e),
        }
    }

    /// Adds a rule that matches the events of the devices of `subsystem`
    /// that are of the type `devtype`. A name that holds a NUL byte is
    /// refused.
    pub fn match_subsystem_devtype(self, subsystem: &[u8], devtype: &[u8]) -> (r: Result<
        MonitorBuilder,
        Error,
    >)
        ensures
            match r {
                Ok(b) => is_name(subsystem@) && is_name(devtype@) && b@ == self@.push(
                    RuleView::SubsystemDevtype(subsystem@, devtype@),
                ),
                Err(e) => !(is_name(subsystem@) && is_name(devtype@)) && e == Error::InvalidName,
            },
    {
        let s = match Subsystem::new(subsystem) {
            Ok(s) => s,
            Err(e) => {
                return Err(e);
            },
        };
        match DeviceType::new(devtype) {
            Ok(d) => Ok(self.with(Rule::SubsystemDevtype(s, d))),
            Err(e) => Err(e),
        }
    }

    /// Adds a rule that matches the events of the devices that carry `tag`.
    /// A name that holds a NUL byte is refused.
    pub fn match_tag(self, tag: &[u8]) -> (r: Result<MonitorBuilder, Error>)
        ensures
            match r {
                Ok(b) => is_name(tag@) && b@ == self@.push(RuleView::Tag(tag@)),
                Err(e) => !is_name(tag@) && e == Error::InvalidName,
            },
    {
        match CName::new(tag) {
            Ok(t) => Ok(self.with(Rule::Tag(t))),
            Err(e) => Err(e),
        }
    }

    /// Drops every rule. It never fails.
    pub fn clear_filters(self) -> (r: Result<MonitorBuilder, Error>)
        ensures
            r matches Ok(b) && b@ == Seq::<RuleView>::empty(),
    {
        MonitorBuilder::new()
    }

    /// How many rules there are.
    pub fn len(&self) -> (n: usize)
        ensures
            n == self@.len(),
    {
        self.rules.len()
    }

    /// The rule at `index`, counted in the order in which the rules were
    /// added, or `None` past the last.
    pub fn rule(&self, index: usize) -> (r: Option<&Rule>)
        ensures
            match r {
                Some(rule) => index < self@.len() && rule@ == self@[index as int],
                None => index >= self@.len(),
            },
    {
        if index < self.rules.len() {
            Some(&self.rules[index])
        } else {
            None
        }
    }

    /// Ends the collecting and starts to set up `monitor`, the native
    /// monitor that the caller has made: it is to be given every rule, in the
    /// order in which the rules were added, and then told to receive. The
    /// descriptor of a monitor that receives is wrapped next.
    pub fn listen(self, monitor: Monitor) -> (activation: Activation)
        ensures
            activation@ == (ActivationView { monitor: monitor@, pending: self@ }),
    {
        Activation::begin(monitor, self.rules)
    }
}

} // verus!
