use crate::identity::Identity;
use crate::ticket::{ticket_name, ticket_name_text, NAME, SYMBOL, URI};
use vstd::prelude::*;

verus! {

/// The two kinds of token that a lottery issues, one of each kind per mint.
#[derive(Clone, Copy, Debug)]
pub enum Asset {
    /// The token that groups all tickets, minted at `mint`.
    Collection { mint: Identity },
    /// The ticket with number `sequence_id`.
    Ticket { sequence_id: u64 },
}

/// Who made a token, and the share of the royalties that they get.
#[derive(Clone, Copy, Debug)]
pub struct Creator {
    pub address: Identity,
    pub verified: bool,
    pub share: u8,
}

/// How a token describes itself.
#[derive(Clone, Debug)]
pub struct AssetData {
    pub name: String,
    pub symbol: String,
    pub uri: String,
    pub seller_fee_basis_points: u16,
    pub creators: Option<Vec<Creator>>,
}

/// One instruction to another program. The caller carries the instructions
/// of an operation out in the order given and gives the whole operation up
/// when one of them fails.
#[derive(Clone, Copy, Debug, PartialEq, Eq, Structural)]
pub enum Action {
    /// Move `lamports` between the payer and the pot.
    Transfer { lamports: u64 },
    /// Mint `amount` tokens to the receiving account.
    MintTo { amount: u64 },
    /// Create the account that describes the token. `collection_size` is set
    /// for a token that groups others, with the number of its members.
    CreateMetadata {
        is_mutable: bool,
        update_authority_is_signer: bool,
        collection_size: Option<u64>,
    },
    /// Create the master edition, which ends minting once `max_supply`
    /// prints exist.
    CreateMasterEdition { max_supply: Option<u64> },
    /// Have the creator sign the description.
    SignMetadata,
    /// Put the token into the lottery's collection and verify that.
    SetAndVerifyCollectionItem,
}

/// A token to issue: its description and the instructions that issue it.
#[derive(Clone, Debug)]
pub struct Issuance {
    pub data: AssetData,
    pub actions: Vec<Action>,
}

/// The name of a token: the collection bears the bare `NAME`, a ticket has
/// its number after it.
pub open spec fn asset_name(asset: Asset) -> Seq<char> {
    match asset {
        Asset::Collection { .. } => NAME@,
        Asset::Ticket { sequence_id } => ticket_name_text(sequence_id),
    }
}

/// The creators of a token: the collection names its own mint, unverified,
/// with the whole share; a ticket names nobody.
pub open spec fn asset_creators(asset: Asset) -> Option<Seq<Creator>> {
    match asset {
        Asset::Collection { mint } => Some(
            seq![Creator { address: mint, verified: false, share: 100 }],
        ),
        Asset::Ticket { .. } => None,
    }
}

/// The instructions that issue a token, in order: mint the one token,
/// describe it, close the mint, and then sign as creator (the collection) or
/// join the collection (a ticket).
pub open spec fn issue_actions(asset: Asset) -> Seq<Action> {
    match asset {
        Asset::Collection { .. } => seq![
            Action::MintTo { amount: 1 },
            Action::CreateMetadata {
                is_mutable: true,
                update_authority_is_signer: true,
                collection_size: Some(0),
            },
            Action::CreateMasterEdition { max_supply: Some(0) },
            Action::SignMetadata,
        ],
        Asset::Ticket { .. } => seq![
            Action::MintTo { amount: 1 },
            Action::CreateMetadata {
                is_mutable: true,
                update_authority_is_signer: true,
                collection_size: None,
            },
            Action::CreateMasterEdition { max_supply: Some(0) },
            Action::SetAndVerifyCollectionItem,
        ],
    }
}

impl AssetData {
    /// Whether this is the description of `asset`.
    pub open spec fn describes(self, asset: Asset) -> bool {
        &&& self.name@ == asset_name(asset)
        &&& self.symbol@ == SYMBOL@
        &&& self.uri@ == URI@
        &&& self.seller_fee_basis_points == 0
        &&& match asset_creators(asset) {
            Some(creators) => self.creators matches Some(v) && v@ == creators,
            None => self.creators is None,
        }
    }
}

impl Issuance {
    /// Whether this issues `asset`.
    pub open spec fn issues(self, asset: Asset) -> bool {
        &&& self.data.describes(asset)
        &&& self.actions@ == issue_actions(asset)
    }
}

/// The description of `asset`.
pub fn asset_data(asset: &Asset) -> (data: AssetData)
    ensures
        data.describes(*asset),
{
    match asset {
        Asset::Collection { mint } => {
            let mut creators: Vec<Creator> = Vec::new();
            creators.push(Creator { address: *mint, verified: false, share: 100 });
            assert(creators@ =~= seq![Creator { address: *mint, verified: false, share: 100 }]);
            AssetData {
                name: String::from_str(NAME),
                symbol: String::from_str(SYMBOL),
                uri: String::from_str(URI),
                seller_fee_basis_points: 0,
                creators: Some(creators),
            }
        },
        Asset::Ticket { sequence_id } => AssetData {
            name: ticket_name(*sequence_id),
            symbol: String::from_str(SYMBOL),
            uri: String::from_str(URI),
            seller_fee_basis_points: 0,
            creators: None,
        },
    }
}

/// The description of `asset` and the instructions that issue it.
pub fn issue(asset: &Asset) -> (issuance: Issuance)
    ensures
        issuance.issues(*asset),
{
    let mut actions: Vec<Action> = Vec::new();
    actions.push(Action::MintTo { amount: 1 });
    match asset {
        Asset::Collection { .. } => {
            actions.push(
                Action::CreateMetadata {
                    is_mutable: true,
                    update_authority_is_signer: true,
                    collection_size: Some(0),
                },
            );
            actions.push(Action::CreateMasterEdition { max_supply: Some(0) });
            actions.push(Action::SignMetadata);
        },
        Asset::Ticket { .. } => {
            actions.push(
                Action::CreateMetadata {
                    is_mutable: true,
                    update_authority_is_signer: true,
                    collection_size: None,
                },
            );
            actions.push(Action::CreateMasterEdition { max_supply: Some(0) });
            actions.push(Action::SetAndVerifyCollectionItem);
        },
    }
    assert(actions@ =~= issue_actions(*asset));
    Issuance { data: asset_data(asset), actions }
}

} // verus!
