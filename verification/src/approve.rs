//! The delegation-approval builder: its state, the authority-resolution
//! rules, and the send pipeline that encodes, signs and submits one
//! transaction.

use vstd::prelude::*;

use crate::sdk;
use litesvm::types::{FailedTransactionMetadata, TransactionMetadata};
use litesvm::LiteSVM;
use solana_keypair::Keypair;
use solana_pubkey::Pubkey;

verus! {

/// The abstract state of a builder: the identities and the amount it hands
/// to the instruction encoder at send time.
#[verifier::ext_equal]
pub struct ApproveModel {
    /// The identity that funds the transaction and signs as fee payer.
    pub payer: Pubkey,
    /// The identity granted spending rights.
    pub delegate: Pubkey,
    /// The token account whose funds become delegable.
    pub source: Pubkey,
    /// The approved amount; zero is a valid no-allowance grant.
    pub amount: u64,
    /// The candidate signing identities, in the order they sign.
    pub signers: Seq<Pubkey>,
    /// The owner override: the effective authority when set.
    pub owner: Option<Pubkey>,
    /// The token program override; the well-known id is used when unset.
    pub token_program_id: Option<Pubkey>,
}

/// The signer list the instruction embeds for a candidate set: a set that
/// is exactly the authority itself means the authority signs directly and
/// nothing is embedded; any other set is embedded verbatim, in its order.
pub open spec fn spec_multisig_signers(authority: Pubkey, signing_keys: Seq<Pubkey>) -> Seq<Pubkey> {
    if signing_keys == seq![authority] {
        Seq::empty()
    } else {
        signing_keys
    }
}

impl ApproveModel {
    /// The state of a freshly constructed builder: no overrides, and the
    /// payer as the one candidate signer.
    pub open spec fn init(payer: Pubkey, delegate: Pubkey, source: Pubkey, amount: u64) -> ApproveModel {
        ApproveModel {
            payer,
            delegate,
            source,
            amount,
            signers: seq![payer],
            owner: None,
            token_program_id: None,
        }
    }

    /// The state after overriding the token program id.
    pub open spec fn with_token_program_id(self, program_id: Pubkey) -> ApproveModel {
        ApproveModel { token_program_id: Some(program_id), ..self }
    }

    /// The state after selecting a single owner: the owner is the
    /// authority, and the one candidate signer.
    pub open spec fn with_owner(self, owner: Pubkey) -> ApproveModel {
        ApproveModel { owner: Some(owner), signers: seq![owner], ..self }
    }

    /// The state after selecting a multisig owner: the group identity is
    /// the authority, and the given set replaces the candidate signers.
    pub open spec fn with_multisig(self, multisig: Pubkey, signer_keys: Seq<Pubkey>) -> ApproveModel {
        ApproveModel { owner: Some(multisig), signers: signer_keys, ..self }
    }

    /// The effective authority the instruction names: the owner override
    /// when one was set, else the payer.
    pub open spec fn authority(self) -> Pubkey {
        match self.owner {
            Some(owner) => owner,
            None => self.payer,
        }
    }

    /// The signer list embedded in the encoded instruction.
    pub open spec fn embedded_signers(self) -> Seq<Pubkey> {
        spec_multisig_signers(self.authority(), self.signers)
    }

    /// Whether the instruction encoder accepts the resolved program id;
    /// the default id is always accepted.
    pub open spec fn program_ok(self) -> bool {
        match self.token_program_id {
            Some(program_id) => sdk::is_spl_token_program(program_id),
            None => true,
        }
    }

    /// The program id the instruction names: the override when one was
    /// set, else the one id the encoder accepts.
    pub open spec fn resolved_program_id(self) -> Pubkey {
        match self.token_program_id {
            Some(program_id) => program_id,
            None => choose|q: Pubkey| sdk::is_spl_token_program(q),
        }
    }
}

/// Builder for an "approve delegate spending allowance" instruction.
///
/// Required fields are set at construction; the owner, multisig and token
/// program configurations may then replace the defaults, and `send`
/// consumes the builder to assemble, sign and submit one transaction.
pub struct Approve<'a> {
    payer: &'a Keypair,
    delegate: &'a Pubkey,
    source: &'a Pubkey,
    amount: u64,
    signers: Vec<&'a Keypair>,
    owner: Option<Pubkey>,
    token_program_id: Option<&'a Pubkey>,
}

impl<'a> View for Approve<'a> {
    type V = ApproveModel;

    closed spec fn view(&self) -> ApproveModel {
        ApproveModel {
            payer: sdk::pubkey_of(*self.payer),
            delegate: *self.delegate,
            source: *self.source,
            amount: self.amount,
            signers: self.signers@.map_values(|kp: &Keypair| sdk::pubkey_of(*kp)),
            owner: self.owner,
            token_program_id: match self.token_program_id {
                Some(program_id) => Some(*program_id),
                None => None,
            },
        }
    }
}

/// The public identities of the candidate signers, in their given order.
pub fn signer_pubkeys(signers: &Vec<&Keypair>) -> (r: Vec<Pubkey>)
    ensures
        r@ =~= signers@.map_values(|kp: &Keypair| sdk::pubkey_of(*kp)),
{
    let mut r: Vec<Pubkey> = Vec::new();
    let mut i: usize = 0;
    while i < signers.len()
        invariant
            i <= signers.len(),
            r@.len() == i,
            forall|j: int| 0 <= j < i ==> r@[j] == sdk::pubkey_of(*signers@[j]),
        decreases signers.len() - i,
    {
        let key = sdk::keypair_pubkey(signers[i]);
        r.push(key);
        i = i + 1;
    }
    r
}

/// Resolves the signer list the instruction embeds: a candidate set that
/// is exactly the authority itself means the authority signs directly, so
/// nothing is embedded; any other set is embedded verbatim.
pub fn get_multisig_signers(authority: &Pubkey, signing_keys: &Vec<Pubkey>) -> (r: Vec<Pubkey>)
    ensures
        r@ =~= spec_multisig_signers(*authority, signing_keys@),
{
    let plain = if signing_keys.len() == 1 {
        let first: Pubkey = signing_keys[0];
        sdk::pubkey_eq(&first, authority)
    } else {
        false
    };
    if plain {
        proof {
            assert(signing_keys@ =~= seq![*authority]);
        }
        Vec::new()
    } else {
        let mut r: Vec<Pubkey> = Vec::new();
        let mut i: usize = 0;
        while i < signing_keys.len()
            invariant
                i <= signing_keys.len(),
                r@ =~= signing_keys@.subrange(0, i as int),
            decreases signing_keys.len() - i,
        {
            let key: Pubkey = signing_keys[i];
            r.push(key);
            i = i + 1;
        }
        proof {
            assert(signing_keys@.subrange(0, signing_keys@.len() as int) =~= signing_keys@);
        }
        r
    }
}

impl<'a> Approve<'a> {
    /// The payer's keypair, as the signing step receives it.
    pub closed spec fn payer_keypair(&self) -> Keypair {
        *self.payer
    }

    /// The candidate signers' keypairs, in signing order.
    pub closed spec fn signer_keypairs(&self) -> Seq<Keypair> {
        self.signers@.map_values(|kp: &Keypair| *kp)
    }

    /// Creates a new approval request with the required fields; the payer
    /// is the default authority and the one candidate signer.
    pub fn new(payer: &'a Keypair, delegate: &'a Pubkey, source: &'a Pubkey, amount: u64) -> (r: Self)
        ensures
            r@ =~= ApproveModel::init(sdk::pubkey_of(*payer), *delegate, *source, amount),
            r.payer_keypair() == *payer,
            r.signer_keypairs() =~= seq![*payer],
    {
        Approve {
            payer,
            delegate,
            source,
            token_program_id: None,
            amount,
            owner: None,
            signers: vec![payer],
        }
    }

    /// Sets the token program id.
    pub fn token_program_id(self, program_id: &'a Pubkey) -> (r: Self)
        ensures
            r@ =~= self@.with_token_program_id(*program_id),
            r.payer_keypair() == self.payer_keypair(),
            r.signer_keypairs() =~= self.signer_keypairs(),
    {
        Approve { token_program_id: Some(program_id), ..self }
    }

    /// Sets the owner of the account to a single owner, replacing the
    /// candidate signers with that owner alone.
    pub fn owner(self, owner: &'a Keypair) -> (r: Self)
        ensures
            r@ =~= self@.with_owner(sdk::pubkey_of(*owner)),
            r.payer_keypair() == self.payer_keypair(),
            r.signer_keypairs() =~= seq![*owner],
    {
        let key = sdk::keypair_pubkey(owner);
        Approve { owner: Some(key), signers: vec![owner], ..self }
    }

    /// Sets the owner of the account to a multisig group, replacing the
    /// candidate signers with the given set, kept verbatim in its order.
    pub fn multisig(self, multisig: &'a Pubkey, signers: &'a [&'a Keypair]) -> (r: Self)
        ensures
            r@ =~= self@.with_multisig(
                *multisig,
                signers@.map_values(|kp: &Keypair| sdk::pubkey_of(*kp)),
            ),
            r.payer_keypair() == self.payer_keypair(),
            r.signer_keypairs() =~= signers@.map_values(|kp: &Keypair| *kp),
    {
        let mut kept: Vec<&'a Keypair> = Vec::new();
        let mut i: usize = 0;
        while i < signers.len()
            invariant
                i <= signers.len(),
                kept@ =~= signers@.subrange(0, i as int),
            decreases signers.len() - i,
        {
            let kp: &'a Keypair = signers[i];
            kept.push(kp);
            i = i + 1;
        }
        proof {
            assert(signers@.subrange(0, signers@.len() as int) =~= signers@);
        }
        Approve { owner: Some(*multisig), signers: kept, ..self }
    }

    /// The effective authority the instruction will name: the owner
    /// override when one was set, else the payer.
    pub fn resolved_authority(&self) -> (r: Pubkey)
        ensures
            r == self@.authority(),
    {
        match self.owner {
            Some(owner) => owner,
            None => sdk::keypair_pubkey(self.payer),
        }
    }

    /// The public identities of the candidate signers, in signing order.
    pub fn resolved_signer_keys(&self) -> (r: Vec<Pubkey>)
        ensures
            r@ =~= self@.signers,
    {
        signer_pubkeys(&self.signers)
    }

    /// Encodes the approve instruction for this request, assembles one
    /// transaction that holds exactly it with the payer as the fee-paying
    /// identity, and signs it with the payer and then with every candidate
    /// signer, all over the given freshness token. The encoder's rejection
    /// of a bad program id override is returned as an error, unchanged.
    /// The candidate signer set must fit the message format, whose header
    /// counts signatures in one byte.
    pub fn signed_transaction(&self, recent: &solana_hash::Hash) -> (r: Result<solana_transaction::Transaction, FailedTransactionMetadata>)
        requires
            self@.signers.len() <= 253,
        ensures
            r is Ok ==> self@.program_ok(),
            r matches Ok(tx) ==> tx == sdk::signed_transaction_of(
                sdk::signed_transaction_of(
                    sdk::unsigned_transaction_of(
                        sdk::approve_instruction(
                            self@.resolved_program_id(),
                            self@.source,
                            self@.delegate,
                            self@.authority(),
                            self@.embedded_signers(),
                            self@.amount,
                        ),
                        self@.payer,
                    ),
                    seq![self.payer_keypair()],
                    *recent,
                ),
                self.signer_keypairs(),
                *recent,
            ),
            match self@.token_program_id {
                Some(p) => !sdk::is_spl_token_program(p)
                    ==> r == Err::<solana_transaction::Transaction, FailedTransactionMetadata>(
                        sdk::encoding_rejection(p),
                    ),
                None => true,
            },
    {
        let payer_pk = sdk::keypair_pubkey(self.payer);
        let program_id: Pubkey = match self.token_program_id {
            Some(program_id) => *program_id,
            None => sdk::default_token_program(),
        };
        proof {
            if self@.token_program_id is None {
                assert(sdk::is_spl_token_program(program_id));
                assert(program_id == self@.resolved_program_id());
            }
        }
        let authority = self.resolved_authority();
        let signing_keys = self.resolved_signer_keys();
        let signer_keys = get_multisig_signers(&authority, &signing_keys);
        proof {
            assert(signer_keys@.len() <= self@.signers.len());
        }

        let ix = match sdk::encode_approve(
            &program_id,
            self.source,
            self.delegate,
            &authority,
            &signer_keys,
            self.amount,
        ) {
            Ok(ix) => ix,
            Err(e) => {
                return Err(e);
            },
        };

        let mut tx = sdk::new_transaction(ix, &payer_pk);
        let payer_only: Vec<&Keypair> = vec![self.payer];
        proof {
            assert(payer_only@.map_values(|kp: &Keypair| *kp) =~= seq![self.payer_keypair()]);
        }
        if let Err(e) = sdk::try_sign(&mut tx, &payer_only, recent) {
            return Err(e);
        }
        if let Err(e) = sdk::try_sign(&mut tx, &self.signers, recent) {
            return Err(e);
        }
        Ok(tx)
    }

    /// Obtains the runtime's latest freshness token, builds the signed
    /// transaction, and submits it: the encoder's rejection of a bad
    /// program id override is surfaced as an error before the runtime is
    /// touched; a rejection by the runtime is passed through unchanged.
    /// The candidate signer set must fit the message format, whose header
    /// counts signatures in one byte.
    ///
    /// The request is consumed: sending the same request twice is ruled
    /// out by ownership, so a retry takes a newly built request.
    pub fn send(self, svm: &mut LiteSVM) -> (r: Result<(), FailedTransactionMetadata>)
        requires
            self@.signers.len() <= 253,
        ensures
            r is Ok ==> self@.program_ok(),
            match self@.token_program_id {
                Some(p) => !sdk::is_spl_token_program(p)
                    ==> r == Err::<(), FailedTransactionMetadata>(sdk::encoding_rejection(p)),
                None => true,
            },
            !self@.program_ok() ==> *final(svm) == *old(svm),
    {
        let recent = sdk::latest_blockhash(svm);
        let tx = match self.signed_transaction(&recent) {
            Ok(tx) => tx,
            Err(e) => {
                return Err(e);
            },
        };
        submit_outcome(sdk::submit(svm, tx))
    }
}

/// Maps the runtime's verdict on a submitted transaction to the caller's
/// result: a rejection is passed through unchanged, and the metadata of an
/// accepted transaction is discarded, success alone being reported.
fn submit_outcome(outcome: Result<TransactionMetadata, FailedTransactionMetadata>) -> (r: Result<(), FailedTransactionMetadata>)
    ensures
        r is Ok <==> outcome is Ok,
        outcome matches Err(e) ==> r == Err::<(), FailedTransactionMetadata>(e),
{
    match outcome {
        Ok(_meta) => Ok(()),
        Err(e) => Err(e),
    }
}

/// Law: a freshly constructed request, with no further configuration,
/// resolves its authority to the payer and its candidate signer set to the
/// payer alone, and the instruction then embeds no signer list (the payer
/// signs directly); the given amount is kept as it is, zero included.
pub proof fn lemma_fresh_request_resolution(payer: Pubkey, delegate: Pubkey, source: Pubkey, amount: u64)
    ensures
        ApproveModel::init(payer, delegate, source, amount).authority() == payer,
        ApproveModel::init(payer, delegate, source, amount).signers =~= seq![payer],
        ApproveModel::init(payer, delegate, source, amount).embedded_signers() =~= Seq::<Pubkey>::empty(),
        ApproveModel::init(payer, delegate, source, amount).amount == amount,
{
    let m = ApproveModel::init(payer, delegate, source, amount);
    assert(m.signers == seq![m.authority()]);
}

/// Law: the single-owner and multisig configurations wholly replace each
/// other; whichever was set last determines both the authority and the
/// candidate signer set, with no merging.
pub proof fn lemma_last_setter_wins(m: ApproveModel, single: Pubkey, group: Pubkey, signer_keys: Seq<Pubkey>)
    ensures
        m.with_owner(single).with_multisig(group, signer_keys).authority() == group,
        m.with_owner(single).with_multisig(group, signer_keys).signers =~= signer_keys,
        m.with_multisig(group, signer_keys).with_owner(single).authority() == single,
        m.with_multisig(group, signer_keys).with_owner(single).signers =~= seq![single],
{
}

/// Law: an empty multisig signer set is accepted by the builder; the
/// request then carries an empty candidate signer list and embeds it
/// verbatim, and its rejection is left to the runtime at send time.
pub proof fn lemma_empty_signer_set_kept(m: ApproveModel, group: Pubkey)
    ensures
        m.with_multisig(group, Seq::empty()).signers =~= Seq::<Pubkey>::empty(),
        m.with_multisig(group, Seq::empty()).embedded_signers() =~= Seq::<Pubkey>::empty(),
{
    assert(Seq::<Pubkey>::empty() != seq![group]) by {
        assert(seq![group].len() == 1);
    }
}

/// Law: a multisig candidate set other than the authority alone is
/// embedded in the instruction verbatim, in its given order.
pub proof fn lemma_multisig_signers_passed_verbatim(m: ApproveModel, group: Pubkey, signer_keys: Seq<Pubkey>)
    requires
        signer_keys != seq![group],
    ensures
        m.with_multisig(group, signer_keys).embedded_signers() =~= signer_keys,
{
}

} // verus!
