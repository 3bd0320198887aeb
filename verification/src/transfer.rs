//! The transfer flow: one call, one submission attempt, one terminal
//! outcome. The flow validates its inputs before any network interaction,
//! then tells its driver which collaborator operation comes next — fetch
//! the gas price, sign and broadcast, await the receipt — and folds each
//! result back into the next decision. The driver performs the operations;
//! every decision here is verified.

use vstd::prelude::*;
use vstd::string::StringSliceAdditionalSpecFns;
use crate::address::{parse_address, spec_address_bytes, spec_is_address};
use crate::decimal::{on_chain_amount, spec_on_chain_units, DecimalAmount};
use crate::error::TransferError;
use crate::gas::{new_gas_price, spec_marked_up_gas_price};
use crate::hex::{hex_string_0x, spec_hex_chars_0x};

verus! {

/// Where a transfer attempt stands.
#[derive(Clone, Copy, Debug, PartialEq, Eq, Structural)]
pub enum Phase {
    /// The current gas price must be fetched from the node.
    FetchingGasPrice,
    /// The transfer call must be signed and broadcast.
    Submitting,
    /// The broadcast was accepted; the mined receipt must be awaited.
    AwaitingReceipt,
    /// A terminal outcome is available.
    Done,
}

/// The collaborator operation the driver must perform next.
#[derive(Clone, Copy, Debug, PartialEq, Eq, Structural)]
pub enum TransferAction {
    /// Query the node for its suggested gas price.
    FetchGasPrice,
    /// Sign the transfer call and broadcast it at this offered price.
    Submit { gas_price: u128 },
    /// Wait for the mined receipt of the broadcast transaction.
    AwaitReceipt,
}

/// What the confirmation wait produced.
pub enum ReceiptEvent {
    /// The transaction was mined; this is its transaction hash.
    Mined(Vec<u8>),
    /// The node reports no receipt after waiting.
    NoReceipt,
    /// The wait itself failed at the collaborator layer.
    WaitFailed,
}

/// Whether an amount converts to a representable on-chain value at this
/// precision.
pub open spec fn spec_amount_ok(a: DecimalAmount, decimals: u32) -> bool {
    if a.negative {
        spec_on_chain_units(a.mantissa as nat, a.scale as nat, decimals as nat) == 0
    } else {
        spec_on_chain_units(a.mantissa as nat, a.scale as nat, decimals as nat) <= u128::MAX
    }
}

/// The on-chain units a convertible amount denotes.
pub open spec fn spec_transfer_units(a: DecimalAmount, decimals: u32) -> int {
    if a.negative {
        0
    } else {
        spec_on_chain_units(a.mantissa as nat, a.scale as nat, decimals as nat)
    }
}

/// Interpret the end of the confirmation wait: no receipt is the
/// settlement failure, a receipt yields its transaction hash as `0x`
/// followed by lowercase hexadecimal digits.
pub fn settle(receipt: Option<Vec<u8>>) -> (r: Result<String, TransferError>)
    ensures
        receipt is None ==> r == Err::<String, TransferError>(TransferError::TxnFailed),
        receipt matches Some(h) ==> (r matches Ok(s) && s@ == spec_hex_chars_0x(h@)),
{
    match receipt {
        None => Err(TransferError::TxnFailed),
        Some(h) => Ok(hex_string_0x(&h)),
    }
}

/// One transfer attempt in progress: destination and value fixed up
/// front, then a strict sequence of gas-price fetch, submission and
/// confirmation, ending in exactly one terminal outcome.
#[derive(Debug)]
pub struct TransferFlow {
    /// Where the attempt stands.
    pub phase: Phase,
    /// The 20 destination address bytes.
    pub to: Vec<u8>,
    /// The on-chain integer amount of the transfer call.
    pub value: u128,
    /// The offered gas price; meaningful from `Submitting` on.
    pub gas_price: u128,
    /// The terminal outcome; present exactly in `Done`.
    pub outcome: Option<Result<String, TransferError>>,
}

impl TransferFlow {
    /// Well-formed: the destination is 20 bytes and an outcome exists
    /// exactly when the flow is done.
    pub open spec fn wf(self) -> bool {
        &&& self.to@.len() == 20
        &&& (self.phase == Phase::Done <==> self.outcome is Some)
    }

    /// Begin a transfer attempt: validate the destination string and
    /// convert the amount, before any network interaction. A malformed
    /// destination fails with the address-parse error; an amount without a
    /// representable non-negative on-chain value fails with the
    /// amount-range error. Otherwise the flow starts at the gas-price
    /// fetch, bound to the denoted address bytes and converted value.
    pub fn start(to_addr: &str, amount: &DecimalAmount, decimals: u32) -> (r: Result<
        TransferFlow,
        TransferError,
    >)
        ensures
            !spec_is_address(to_addr.spec_bytes()) ==> r == Err::<TransferFlow, TransferError>(
                TransferError::AddressParse,
            ),
            spec_is_address(to_addr.spec_bytes()) && !spec_amount_ok(*amount, decimals) ==> r
                == Err::<TransferFlow, TransferError>(TransferError::AmountRange),
            spec_is_address(to_addr.spec_bytes()) && spec_amount_ok(*amount, decimals) ==> (
            r matches Ok(f) && f.wf() && f.phase == Phase::FetchingGasPrice && f.to@
                == spec_address_bytes(to_addr.spec_bytes()) && f.value == spec_transfer_units(
                *amount,
                decimals,
            )),
    {
        let to = match parse_address(to_addr) {
            Some(v) => v,
            None => {
                return Err(TransferError::AddressParse);
            },
        };
        let value = match on_chain_amount(amount, decimals) {
            Ok(v) => v,
            Err(e) => {
                return Err(e);
            },
        };
        Ok(
            TransferFlow {
                phase: Phase::FetchingGasPrice,
                to,
                value,
                gas_price: 0,
                outcome: None,
            },
        )
    }

    /// The collaborator operation owed next, or nothing once the flow is
    /// done.
    pub fn next_action(&self) -> (a: Option<TransferAction>)
        ensures
            self.phase == Phase::FetchingGasPrice ==> a == Some(TransferAction::FetchGasPrice),
            self.phase == Phase::Submitting ==> a == Some(
                TransferAction::Submit { gas_price: self.gas_price },
            ),
            self.phase == Phase::AwaitingReceipt ==> a == Some(TransferAction::AwaitReceipt),
            self.phase == Phase::Done ==> a is None,
    {
        match self.phase {
            Phase::FetchingGasPrice => Some(TransferAction::FetchGasPrice),
            Phase::Submitting => Some(TransferAction::Submit { gas_price: self.gas_price }),
            Phase::AwaitingReceipt => Some(TransferAction::AwaitReceipt),
            Phase::Done => None,
        }
    }

    /// Fold in the gas-price fetch: an unreachable node ends the flow with
    /// the gas-price error; a fetched price is marked up by the 15% policy
    /// and the flow moves on to submission.
    pub fn gas_price_fetched(&mut self, fetched: Option<u128>)
        requires
            old(self).wf(),
            old(self).phase == Phase::FetchingGasPrice,
        ensures
            final(self).wf(),
            final(self).to == old(self).to,
            final(self).value == old(self).value,
            fetched is None ==> final(self).phase == Phase::Done && final(self).outcome == Some(
                Err::<String, TransferError>(TransferError::GasPriceFetch),
            ),
            fetched matches Some(g) ==> final(self).phase == Phase::Submitting
                && final(self).gas_price == spec_marked_up_gas_price(g),
    {
        match fetched {
            None => {
                self.phase = Phase::Done;
                self.outcome = Some(Err(TransferError::GasPriceFetch));
            },
            Some(g) => {
                self.gas_price = new_gas_price(g);
                self.phase = Phase::Submitting;
            },
        }
    }

    /// Fold in the broadcast: a rejected or failed broadcast ends the flow
    /// with the submission error; an accepted one moves it to the
    /// confirmation wait.
    pub fn broadcast_result(&mut self, accepted: bool)
        requires
            old(self).wf(),
            old(self).phase == Phase::Submitting,
        ensures
            final(self).wf(),
            final(self).to == old(self).to,
            final(self).value == old(self).value,
            final(self).gas_price == old(self).gas_price,
            accepted ==> final(self).phase == Phase::AwaitingReceipt,
            !accepted ==> final(self).phase == Phase::Done && final(self).outcome == Some(
                Err::<String, TransferError>(TransferError::Submission),
            ),
    {
        if accepted {
            self.phase = Phase::AwaitingReceipt;
        } else {
            self.phase = Phase::Done;
            self.outcome = Some(Err(TransferError::Submission));
        }
    }

    /// Fold in the confirmation wait and end the flow: a mined receipt
    /// succeeds with its hash rendered as `0x` plus lowercase hex; a
    /// missing receipt is the settlement failure, distinct from the
    /// submission error of a failed wait.
    pub fn receipt_result(&mut self, ev: ReceiptEvent)
        requires
            old(self).wf(),
            old(self).phase == Phase::AwaitingReceipt,
        ensures
            final(self).wf(),
            final(self).phase == Phase::Done,
            ev matches ReceiptEvent::Mined(h) ==> (final(self).outcome matches Some(o) && (
            o matches Ok(s) && s@ == spec_hex_chars_0x(h@))),
            ev is NoReceipt ==> final(self).outcome == Some(
                Err::<String, TransferError>(TransferError::TxnFailed),
            ),
            ev is WaitFailed ==> final(self).outcome == Some(
                Err::<String, TransferError>(TransferError::Submission),
            ),
    {
        let o = match ev {
            ReceiptEvent::Mined(h) => settle(Some(h)),
            ReceiptEvent::NoReceipt => settle(None),
            ReceiptEvent::WaitFailed => Err(TransferError::Submission),
        };
        self.phase = Phase::Done;
        self.outcome = Some(o);
    }
}

} // verus!
