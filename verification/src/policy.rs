//! Builders for traffic policy documents: a policy is two ordered rule
//! lists, inbound and outbound; a rule is an ordered list of match
//! expressions and an ordered list of actions.

use vstd::prelude::*;
use vstd::string::*;

use crate::text::texts_view;

verus! {

/// Mathematical view of a policy rule.
pub ghost struct PolicyRuleView {
    pub expressions: Seq<Seq<char>>,
    pub actions: Seq<Seq<char>>,
}

/// The builder for one policy rule.
#[derive(Debug)]
pub struct PolicyRuleBuilder {
    pub expressions: Vec<String>,
    pub actions: Vec<String>,
}

impl View for PolicyRuleBuilder {
    type V = PolicyRuleView;

    open spec fn view(&self) -> PolicyRuleView {
        PolicyRuleView {
            expressions: texts_view(self.expressions@),
            actions: texts_view(self.actions@),
        }
    }
}

impl PolicyRuleBuilder {
    pub fn new() -> (r: Self)
        ensures
            r@ == (PolicyRuleView { expressions: Seq::empty(), actions: Seq::empty() }),
    {
        let r = PolicyRuleBuilder { expressions: Vec::new(), actions: Vec::new() };
        proof {
            assert(r@.expressions =~= Seq::<Seq<char>>::empty());
            assert(r@.actions =~= Seq::<Seq<char>>::empty());
        }
        r
    }

    /// The builder's display name.
    pub fn __str__(&self) -> (r: String)
        ensures
            r@ == "ngrok_policy_rule_builder"@,
    {
        "ngrok_policy_rule_builder".to_owned()
    }

    /// Append one match expression; order is kept.
    pub fn add_expression(&mut self, expression: String)
        ensures
            final(self)@ == (PolicyRuleView {
                expressions: old(self)@.expressions.push(expression@),
                ..old(self)@
            }),
    {
        self.expressions.push(expression);
        proof {
            assert(self@.expressions =~= old(self)@.expressions.push(expression@));
        }
    }

    /// Append one action; order is kept.
    pub fn add_action(&mut self, action: String)
        ensures
            final(self)@ == (PolicyRuleView {
                actions: old(self)@.actions.push(action@),
                ..old(self)@
            }),
    {
        self.actions.push(action);
        proof {
            assert(self@.actions =~= old(self)@.actions.push(action@));
        }
    }
}

/// Mathematical view of a policy document.
pub ghost struct PolicyView {
    pub inbound: Seq<PolicyRuleView>,
    pub outbound: Seq<PolicyRuleView>,
}

/// The builder for a whole traffic policy.
#[derive(Debug)]
pub struct PolicyBuilder {
    pub inbound: Vec<PolicyRuleBuilder>,
    pub outbound: Vec<PolicyRuleBuilder>,
}

impl View for PolicyBuilder {
    type V = PolicyView;

    open spec fn view(&self) -> PolicyView {
        PolicyView {
            inbound: self.inbound@.map_values(|r: PolicyRuleBuilder| r@),
            outbound: self.outbound@.map_values(|r: PolicyRuleBuilder| r@),
        }
    }
}

impl PolicyBuilder {
    pub fn new() -> (r: Self)
        ensures
            r@ == (PolicyView { inbound: Seq::empty(), outbound: Seq::empty() }),
    {
        let r = PolicyBuilder { inbound: Vec::new(), outbound: Vec::new() };
        proof {
            assert(r@.inbound =~= Seq::<PolicyRuleView>::empty());
            assert(r@.outbound =~= Seq::<PolicyRuleView>::empty());
        }
        r
    }

    /// The builder's display name.
    pub fn __str__(&self) -> (r: String)
        ensures
            r@ == "ngrok_policy_builder"@,
    {
        "ngrok_policy_builder".to_owned()
    }

    /// Append one rule to the inbound list; order is kept.
    pub fn add_inbound(&mut self, rule: PolicyRuleBuilder)
        ensures
            final(self)@ == (PolicyView { inbound: old(self)@.inbound.push(rule@), ..old(self)@ }),
    {
        self.inbound.push(rule);
        proof {
            assert(self@.inbound =~= old(self)@.inbound.push(rule@));
        }
    }

    /// Append one rule to the outbound list; order is kept.
    pub fn add_outbound(&mut self, rule: PolicyRuleBuilder)
        ensures
            final(self)@ == (PolicyView {
                outbound: old(self)@.outbound.push(rule@),
                ..old(self)@
            }),
    {
        self.outbound.push(rule);
        proof {
            assert(self@.outbound =~= old(self)@.outbound.push(rule@));
        }
    }
}

} // verus!
