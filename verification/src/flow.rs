use vstd::prelude::*;
use crate::error::TinkApiError;
use crate::gateway::TinkApiGateway;
use crate::http::{is_success_status, HttpRequest, HttpResponse};
use crate::model::PaymentRequest;
use crate::provider::{parse_payment_response, parse_token_response, payment_matches_record, payment_record_ok, token_fields_of, token_shape_ok};

verus! {

/// Where a create-payment flow stands.
#[derive(Clone, Copy, Debug, PartialEq, Eq, Structural)]
pub enum FlowPhase {
    /// Nothing sent yet.
    NeedToken,
    /// The token request left; its response is awaited.
    TokenPending,
    /// A token is in hand; the payment request has not left yet.
    NeedPayment,
    /// The payment request left; its response is awaited.
    PaymentPending,
    /// The flow ended, successfully or not.
    Finished,
}

/// The create-payment operation as a state machine: the flow decides which
/// request leaves next, and the surrounding application performs the send
/// and hands the response back.  The ghost trace `requests_sent` records
/// every request the flow ever emitted, so the contracts account for each
/// outbound call.
pub struct CreatePaymentFlow {
    pub gateway: TinkApiGateway,
    pub market: String,
    pub currency: String,
    pub amount: u32,
    pub phase: FlowPhase,
    pub token: Option<String>,
    pub requests_sent: Ghost<Seq<HttpRequest>>,
    pub outcome: Ghost<Option<Result<PaymentRequest, TinkApiError>>>,
}

impl CreatePaymentFlow {
    /// The flow's invariant: the ghost trace holds exactly the requests the
    /// phase says have left, the first is always the token request, the
    /// second always the payment submission under the fetched token, and a
    /// successful outcome is only ever reached after both.
    pub open spec fn wf(self) -> bool {
        &&& match self.phase {
            FlowPhase::NeedToken => self.requests_sent@.len() == 0 && self.token is None
                && self.outcome@ is None,
            FlowPhase::TokenPending => self.requests_sent@.len() == 1 && self.token is None
                && self.outcome@ is None,
            FlowPhase::NeedPayment => self.requests_sent@.len() == 1 && self.token is Some
                && self.outcome@ is None,
            FlowPhase::PaymentPending => self.requests_sent@.len() == 2 && self.token is Some
                && self.outcome@ is None,
            FlowPhase::Finished => {
                &&& self.outcome@ is Some
                &&& self.requests_sent@.len() == 1 || self.requests_sent@.len() == 2
                &&& (self.outcome@->Some_0 matches Ok(p) ==> self.requests_sent@.len() == 2
                    && p.id is Some)
                &&& (self.outcome@->Some_0 matches Err(e) ==> e.kind is ProviderProtocol)
            },
        }
        &&& self.requests_sent@.len() >= 1 ==> self.gateway.is_token_request(
            self.requests_sent@[0],
        )
        &&& self.requests_sent@.len() >= 2 ==> self.token is Some
            && self.gateway.is_payment_submission(
            self.token->Some_0@,
            self.market@,
            self.currency@,
            self.amount,
            self.requests_sent@[1],
        )
    }

    /// Opens a flow for one payment: nothing sent, nothing decided.
    pub fn new(gateway: TinkApiGateway, market: String, currency: String, amount: u32) -> (r: Self)
        ensures
            r.wf(),
            r.phase is NeedToken,
            r.gateway == gateway,
            r.market == market,
            r.currency == currency,
            r.amount == amount,
            r.requests_sent@.len() == 0,
    {
        CreatePaymentFlow {
            gateway,
            market,
            currency,
            amount,
            phase: FlowPhase::NeedToken,
            token: None,
            requests_sent: Ghost(Seq::empty()),
            outcome: Ghost(None),
        }
    }

    /// Emits the token request — the only request that ever leaves first.
    pub fn start(&mut self) -> (r: HttpRequest)
        requires
            old(self).wf(),
            old(self).phase is NeedToken,
        ensures
            final(self).wf(),
            final(self).phase is TokenPending,
            old(self).gateway.is_token_request(r),
            final(self).requests_sent@ == old(self).requests_sent@.push(r),
            final(self).gateway == old(self).gateway,
            final(self).market == old(self).market,
            final(self).currency == old(self).currency,
            final(self).amount == old(self).amount,
    {
        let r = self.gateway.token_request();
        self.phase = FlowPhase::TokenPending;
        self.requests_sent = Ghost(self.requests_sent@.push(r));
        r
    }

    /// Consumes the token response.  On success the flow holds the bearer
    /// token; on a bad status or a malformed body it finishes with the
    /// error at once, and — the trace being unchanged — no payment request
    /// is ever attempted after a token failure.
    pub fn on_token_response(&mut self, resp: &HttpResponse) -> (r: Result<(), TinkApiError>)
        requires
            old(self).wf(),
            old(self).phase is TokenPending,
        ensures
            final(self).wf(),
            final(self).requests_sent@ == old(self).requests_sent@,
            final(self).gateway == old(self).gateway,
            final(self).market == old(self).market,
            final(self).currency == old(self).currency,
            final(self).amount == old(self).amount,
            r is Ok <==> (is_success_status(resp.status) && token_shape_ok(resp.body@)),
            r is Ok ==> final(self).phase is NeedPayment && (final(self).token matches Some(t)
                && token_fields_of(resp.body@) matches Some(f) && t@ == f.2),
            !is_success_status(resp.status) ==> r is Err,
            r matches Err(e) ==> final(self).phase is Finished && e.kind is ProviderProtocol
                && (final(self).outcome@ matches Some(o) && o matches Err(e2) && e2 == e),
    {
        match parse_token_response(resp) {
            Ok(t) => {
                self.token = Some(t.access_token);
                self.phase = FlowPhase::NeedPayment;
                Ok(())
            },
            Err(e) => {
                self.phase = FlowPhase::Finished;
                self.outcome = Ghost(Some(Err(e)));
                Err(e)
            },
        }
    }

    /// Emits the payment-creation request — the only request that ever
    /// leaves second, and only after a token arrived.
    pub fn submit_payment(&mut self) -> (r: HttpRequest)
        requires
            old(self).wf(),
            old(self).phase is NeedPayment,
        ensures
            final(self).wf(),
            final(self).phase is PaymentPending,
            old(self).gateway.is_payment_submission(
                old(self).token->Some_0@,
                old(self).market@,
                old(self).currency@,
                old(self).amount,
                r,
            ),
            final(self).requests_sent@ == old(self).requests_sent@.push(r),
            final(self).gateway == old(self).gateway,
            final(self).market == old(self).market,
            final(self).currency == old(self).currency,
            final(self).amount == old(self).amount,
    {
        let token = self.token.as_ref().unwrap();
        let (_body, r) = self.gateway.create_payment_request(
            token.as_str(),
            self.market.as_str(),
            self.currency.as_str(),
            self.amount,
        );
        self.phase = FlowPhase::PaymentPending;
        self.requests_sent = Ghost(self.requests_sent@.push(r));
        r
    }

    /// Consumes the payment response and finishes the flow.  Every record
    /// it hands back carries the provider-assigned id.
    pub fn on_payment_response(&mut self, resp: &HttpResponse) -> (r: Result<
        PaymentRequest,
        TinkApiError,
    >)
        requires
            old(self).wf(),
            old(self).phase is PaymentPending,
        ensures
            final(self).wf(),
            final(self).phase is Finished,
            final(self).requests_sent@ == old(self).requests_sent@,
            final(self).gateway == old(self).gateway,
            final(self).market == old(self).market,
            final(self).currency == old(self).currency,
            final(self).amount == old(self).amount,
            final(self).outcome@ == Some(r),
            r is Ok <==> (is_success_status(resp.status) && payment_record_ok(resp.body@)),
            r matches Ok(p) ==> (payment_matches_record(p, resp.body@) && p.id is Some),
            !is_success_status(resp.status) ==> r is Err,
            r matches Err(e) ==> e.kind is ProviderProtocol,
    {
        let r = parse_payment_response(resp);
        self.phase = FlowPhase::Finished;
        self.outcome = Ghost(Some(r));
        r
    }
}

/// A finished, successful flow sent exactly two requests: first the token
/// request for its credentials, then one payment submission that carries
/// the flow's own market, currency and amount under the fetched token.
pub proof fn lemma_success_sends_one_token_and_one_payment(f: CreatePaymentFlow)
    requires
        f.wf(),
        f.phase is Finished,
        f.outcome@ matches Some(o) && o is Ok,
    ensures
        f.requests_sent@.len() == 2,
        f.gateway.is_token_request(f.requests_sent@[0]),
        f.token is Some,
        f.gateway.is_payment_submission(
            f.token->Some_0@,
            f.market@,
            f.currency@,
            f.amount,
            f.requests_sent@[1],
        ),
{
}

/// A finished flow that sent only the token request cannot have succeeded:
/// a failure before the payment submission leaves the flow with the error
/// and without any payment-creation request in its trace.
pub proof fn lemma_single_request_means_token_failure(f: CreatePaymentFlow)
    requires
        f.wf(),
        f.phase is Finished,
        f.requests_sent@.len() == 1,
    ensures
        f.outcome@ matches Some(o) && o matches Err(e) && e.kind is ProviderProtocol,
{
}

} // verus!
