use vstd::prelude::*;

verus! {

/// Remittance information embedded in a payment request.  The provider's
/// JSON calls the first field `type`.
#[derive(Clone, Debug, PartialEq)]
pub struct RemittanceInformation {
    pub type_field: String,
    pub value: String,
}

/// One destination account of a payment.  The provider's JSON calls the
/// second field `type`.
#[derive(Clone, Debug, PartialEq)]
pub struct Destination {
    pub account_number: String,
    pub type_field: String,
}

/// A payment request as exchanged with the provider.  `id` is absent in a
/// request built to be sent and present (provider-assigned) in a record
/// parsed from a provider response.
#[derive(Clone, Debug, PartialEq)]
pub struct PaymentRequest {
    pub id: Option<String>,
    pub amount: u32,
    pub currency: String,
    pub market: String,
    pub source_message: String,
    pub recipient_name: String,
    pub remittance_information: RemittanceInformation,
    pub destinations: Vec<Destination>,
}

/// Holds exactly when `p` is the outgoing payment body for the given market,
/// currency and amount: no id, the caller's three values, and the fixed
/// demo-store defaults for every remaining field.
pub open spec fn outgoing_matches(
    p: PaymentRequest,
    market: Seq<char>,
    currency: Seq<char>,
    amount: u32,
) -> bool {
    &&& p.id is None
    &&& p.amount == amount
    &&& p.currency@ == currency
    &&& p.market@ == market
    &&& p.source_message@ == "Payment for Sneaker 034"@
    &&& p.recipient_name@ == "Demo Store AB"@
    &&& p.remittance_information.type_field@ == "UNSTRUCTURED"@
    &&& p.remittance_information.value@ == "3245928392092"@
    &&& p.destinations@.len() == 1
    &&& p.destinations@[0].account_number@ == "33008808080808"@
    &&& p.destinations@[0].type_field@ == "se"@
}

impl PaymentRequest {
    /// Builds the body of a payment-creation request: the caller's market,
    /// currency and amount, no id, and the fixed demo-store defaults.
    pub fn outgoing(market: &str, currency: &str, amount: u32) -> (r: Self)
        ensures
            outgoing_matches(r, market@, currency@, amount),
    {
        PaymentRequest {
            id: None,
            amount,
            currency: currency.to_owned(),
            market: market.to_owned(),
            source_message: "Payment for Sneaker 034".to_owned(),
            recipient_name: "Demo Store AB".to_owned(),
            remittance_information: RemittanceInformation {
                type_field: "UNSTRUCTURED".to_owned(),
                value: "3245928392092".to_owned(),
            },
            destinations: vec![Destination {
                account_number: "33008808080808".to_owned(),
                type_field: "se".to_owned(),
            }],
        }
    }
}

} // verus!
