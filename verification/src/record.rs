//! The two records the ledger works with: the persisted campaign record and
//! the ephemeral withdraw request decoded from instruction bytes.

use vstd::prelude::*;
use crate::keys::Pubkey;
use crate::keys::PUBKEY_LEN;

verus! {

/// Mathematical model of a campaign record.
#[verifier::ext_equal]
pub struct CampaignRecordView {
    pub admin: Seq<u8>,
    pub name: Seq<u8>,
    pub description: Seq<u8>,
    pub image_link: Seq<u8>,
    pub amount_donated: u64,
}

impl CampaignRecordView {
    /// A record is well formed when its admin key has the fixed key length
    /// and each text field is short enough for a 32-bit length prefix.
    pub open spec fn wf(self) -> bool {
        &&& self.admin.len() == PUBKEY_LEN
        &&& self.name.len() <= u32::MAX
        &&& self.description.len() <= u32::MAX
        &&& self.image_link.len() <= u32::MAX
    }

    /// The same record with its donation counter replaced.
    pub open spec fn with_amount(self, amount: u64) -> CampaignRecordView {
        CampaignRecordView { amount_donated: amount, ..self }
    }
}

/// One campaign's persisted state: the administrator's key, three
/// caller-supplied text fields (opaque to the ledger's rules, held as their
/// raw bytes), and the cumulative donation counter.
pub struct CampaignRecord {
    pub admin: Pubkey,
    pub name: Vec<u8>,
    pub description: Vec<u8>,
    pub image_link: Vec<u8>,
    pub amount_donated: u64,
}

impl View for CampaignRecord {
    type V = CampaignRecordView;

    open spec fn view(&self) -> CampaignRecordView {
        CampaignRecordView {
            admin: self.admin@,
            name: self.name@,
            description: self.description@,
            image_link: self.image_link@,
            amount_donated: self.amount_donated,
        }
    }
}

impl CampaignRecord {
    pub open spec fn wf(&self) -> bool {
        self@.wf()
    }
}

/// A request to move `amount` out of the campaign account's balance.
/// Decoded from instruction bytes, never persisted.
pub struct WithdrawRequest {
    pub amount: u64,
}

impl View for WithdrawRequest {
    type V = u64;

    open spec fn view(&self) -> u64 {
        self.amount
    }
}

} // verus!
