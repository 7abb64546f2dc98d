//! The dispatch chain: handlers are tried in list order, and the first
//! `Claimed` or `Failed` outcome settles the response.

use vstd::prelude::*;

use crate::http::HandlerOutcome;
use crate::http::HttpResponse;
use crate::http::OutcomeModel;
use crate::http::ResponseModel;
use crate::http::failure_response;
use crate::http::spec_failure_response;
use crate::http::spec_unhandled_response;
use crate::http::unhandled_response;

verus! {

/// The first outcome in chain order that is not `NotMine`, if any.
pub open spec fn first_decisive(outcomes: Seq<OutcomeModel>) -> Option<OutcomeModel>
    decreases outcomes.len(),
{
    if outcomes.len() == 0 {
        None
    } else if !(outcomes[0] is NotMine) {
        Some(outcomes[0])
    } else {
        first_decisive(outcomes.drop_first())
    }
}

/// The single response a chain of handler outcomes produces: the first
/// claimed response, or a server error carrying the first failure's
/// description, or the fixed unhandled diagnostic where every handler
/// stood aside.
pub open spec fn chain_response(outcomes: Seq<OutcomeModel>) -> ResponseModel {
    match first_decisive(outcomes) {
        Some(OutcomeModel::Claimed(r)) => r,
        Some(OutcomeModel::Failed(msg)) => spec_failure_response(msg),
        _ => spec_unhandled_response(),
    }
}

/// The outcome list of this fixed two-handler chain: the second handler
/// has an outcome only where it was invoked.
pub open spec fn chain_outcomes(first: OutcomeModel, second: Option<OutcomeModel>) -> Seq<
    OutcomeModel,
> {
    match second {
        Some(s) => seq![first, s],
        None => seq![first],
    }
}

/// The model of the second handler's outcome, where it was invoked.
pub open spec fn second_view(second: Option<HandlerOutcome>) -> Option<OutcomeModel> {
    match second {
        Some(o) => Some(o@),
        None => None,
    }
}

/// Settles one request from the handlers' outcomes. The handler chain
/// is invoked lazily: a second outcome exists exactly where the first
/// handler stood aside, so a handler after a `Claimed` or `Failed` one
/// is never run.
pub fn finish_chain(first: HandlerOutcome, second: Option<HandlerOutcome>) -> (r: HttpResponse)
    requires
        (second is Some) <==> (first is NotMine),
    ensures
        r@ == chain_response(chain_outcomes(first@, second_view(second))),
{
    proof {
        if second is None {
            assert(chain_outcomes(first@, None) =~= seq![first@]);
            assert(first_decisive(seq![first@]) == Some(first@));
        }
    }
    match first {
        HandlerOutcome::Claimed(resp) => resp,
        HandlerOutcome::Failed(msg) => failure_response(&msg),
        HandlerOutcome::NotMine => {
            let s = second.unwrap();
            proof {
                assert(second_view(second) == Some(s@));
                let os = chain_outcomes(first@, Some(s@));
                assert(os.drop_first() =~= seq![s@]);
                assert(os[0] == first@);
                if s@ is NotMine {
                    assert(seq![s@].drop_first() =~= Seq::<OutcomeModel>::empty());
                    assert(first_decisive(Seq::<OutcomeModel>::empty()) is None);
                    assert(first_decisive(seq![s@]) is None);
                } else {
                    assert(first_decisive(seq![s@]) == Some(s@));
                }
                assert(first_decisive(os) == first_decisive(seq![s@]));
            }
            match s {
                HandlerOutcome::Claimed(resp) => resp,
                HandlerOutcome::Failed(msg) => failure_response(&msg),
                HandlerOutcome::NotMine => unhandled_response(),
            }
        },
    }
}

/// Once the first handler claims or fails a request, the chain's
/// response is fixed: whatever outcomes stand after it, the response is
/// the one its outcome alone determines, so later handlers need never
/// be invoked.
pub proof fn lemma_chain_stops_at_first_decisive(
    outcomes1: Seq<OutcomeModel>,
    outcomes2: Seq<OutcomeModel>,
)
    requires
        outcomes1.len() > 0,
        outcomes2.len() > 0,
        outcomes1[0] == outcomes2[0],
        !(outcomes1[0] is NotMine),
    ensures
        chain_response(outcomes1) == chain_response(outcomes2),
{
}

} // verus!
