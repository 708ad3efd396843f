//! A fitted parametric policy as model-family comparisons read it: the
//! semantic profile it was fitted for and, for each of the seven diagnostic
//! choices, the intent it predicts and the weight it gives the primary intent.

use vstd::prelude::*;
use crate::lane::LaneIntent;

verus! {

/// The fitted weight of one diagnostic choice.
#[derive(Clone, Copy, Debug, PartialEq, Eq, Hash, Structural)]
pub struct ParametricActionWeight {
    pub predicted_intent: LaneIntent,
    pub primary_weight_bp: u16,
}

impl ParametricActionWeight {
    /// A weight from the intent it predicts and its primary weight.
    pub fn new(predicted_intent: LaneIntent, primary_weight_bp: u16) -> (r: Self)
        ensures
            r.predicted_intent == predicted_intent,
            r.primary_weight_bp == primary_weight_bp,
    {
        ParametricActionWeight { predicted_intent, primary_weight_bp }
    }

    /// The intent this weight predicts.
    pub fn predicted_intent(self) -> (r: LaneIntent)
        ensures
            r == self.predicted_intent,
    {
        self.predicted_intent
    }

    /// The weight given to the primary intent, in basis points.
    pub fn primary_weight_bp(self) -> (r: u16)
        ensures
            r == self.primary_weight_bp,
    {
        self.primary_weight_bp
    }
}

/// A fitted policy: its profile and one weight per diagnostic choice, in
/// catalog order.
#[derive(Clone, Copy, Debug, PartialEq, Eq, Hash)]
pub struct ParametricPolicyDefinition {
    pub profile_id: &'static str,
    pub action_weights: [ParametricActionWeight; 7],
}

/// The content of a fitted policy.
pub struct PolicyView {
    pub profile_id: Seq<char>,
    pub weights: Seq<ParametricActionWeight>,
}

impl View for ParametricPolicyDefinition {
    type V = PolicyView;

    open spec fn view(&self) -> PolicyView {
        PolicyView { profile_id: self.profile_id@, weights: self.action_weights@ }
    }
}

impl ParametricPolicyDefinition {
    /// A policy from its profile and its seven weights.
    pub fn new(profile_id: &'static str, action_weights: [ParametricActionWeight; 7]) -> (r: Self)
        ensures
            r@.profile_id == profile_id@,
            r@.weights == action_weights@,
    {
        ParametricPolicyDefinition { profile_id, action_weights }
    }

    /// The profile the policy was fitted for.
    pub fn profile_id(&self) -> (r: &'static str)
        ensures
            r@ == self@.profile_id,
    {
        self.profile_id
    }

    /// The seven weights, in catalog order.
    pub fn action_weights(&self) -> (r: &[ParametricActionWeight; 7])
        ensures
            r@ == self@.weights,
            r@.len() == 7,
    {
        &self.action_weights
    }
}

} // verus!
