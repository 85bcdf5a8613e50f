use vstd::prelude::*;
use vstd::utf8::encode_utf8;
use crate::accounts::BookSlot;
use crate::instruction::{
    AccountMeta, Instruction, InstructionView, SYSVAR_INSTRUCTIONS_ID, TOKEN_METADATA_PROGRAM_ID,
};
use crate::pubkey::Pubkey;
use mpl_token_metadata::instructions::CreateV1Builder;
use mpl_token_metadata::types::Creator as OutsideCreator;
use mpl_token_metadata::types::PrintSupply as OutsideSupply;
use mpl_token_metadata::types::TokenStandard as OutsideStandard;

verus! {

/// One of those who made what a token stands for, with the share of the
/// proceeds that is theirs.
#[derive(Clone, Copy, Debug, PartialEq, Eq)]
pub struct Creator {
    pub address: Pubkey,
    pub verified: bool,
    /// In percent.
    pub share: u8,
}

/// What kind of token a descriptor describes.
#[derive(Clone, Copy, Debug, PartialEq, Eq)]
pub enum TokenStandard {
    NonFungible,
    FungibleAsset,
    Fungible,
    NonFungibleEdition,
    ProgrammableNonFungible,
    ProgrammableNonFungibleEdition,
}

/// How many prints of a token may be made.
#[derive(Clone, Copy, Debug, PartialEq, Eq)]
pub enum PrintSupply {
    Zero,
    Limited(u64),
    Unlimited,
}

/// The builder of the token metadata program's `CreateV1` instruction.
#[verifier::external_type_specification]
#[verifier::external_body]
pub struct ExCreateV1Builder(mpl_token_metadata::instructions::CreateV1Builder);

/// The instruction that the token metadata program's `CreateV1` builder makes
/// of these accounts and arguments.
pub uninterp spec fn create_v1_instruction(
    metadata: Seq<u8>,
    master_edition: Option<Seq<u8>>,
    mint: Seq<u8>,
    mint_signs: bool,
    authority: Seq<u8>,
    payer: Seq<u8>,
    update_authority: Seq<u8>,
    update_authority_signs: bool,
    system_program: Seq<u8>,
    sysvar_instructions: Seq<u8>,
    spl_token_program: Option<Seq<u8>>,
    name: Seq<char>,
    symbol: Seq<char>,
    uri: Seq<char>,
    seller_fee_basis_points: u16,
    creators: Seq<Creator>,
    is_mutable: bool,
    token_standard: TokenStandard,
    print_supply: PrintSupply,
) -> InstructionView;

/// The view of a key that may be missing.
pub open spec fn key_view(key: Option<[u8; 32]>) -> Option<Seq<u8>> {
    match key {
        Some(key) => Some(key@),
        None => None,
    }
}

/// The accounts that a `CreateV1` instruction names, in order. Where there is
/// no master edition or no token program, the token metadata program stands
/// in its place, read only.
pub open spec fn create_v1_accounts(
    metadata: [u8; 32],
    master_edition: Option<[u8; 32]>,
    mint: [u8; 32],
    mint_signs: bool,
    authority: [u8; 32],
    payer: [u8; 32],
    update_authority: [u8; 32],
    update_authority_signs: bool,
    system_program: [u8; 32],
    sysvar_instructions: [u8; 32],
    spl_token_program: Option<[u8; 32]>,
) -> Seq<AccountMeta> {
    seq![
        AccountMeta::writable(metadata, false),
        match master_edition {
            Some(key) => AccountMeta::writable(key, false),
            None => AccountMeta::readonly(TOKEN_METADATA_PROGRAM_ID, false),
        },
        AccountMeta::writable(mint, mint_signs),
        AccountMeta::readonly(authority, true),
        AccountMeta::writable(payer, true),
        AccountMeta::readonly(update_authority, update_authority_signs),
        AccountMeta::readonly(system_program, false),
        AccountMeta::readonly(sysvar_instructions, false),
        match spl_token_program {
            Some(key) => AccountMeta::readonly(key, false),
            None => AccountMeta::readonly(TOKEN_METADATA_PROGRAM_ID, false),
        },
    ]
}

/// Hands the arguments of a `CreateV1` instruction to a fresh
/// `mpl_token_metadata::instructions::CreateV1Builder`, each through the
/// builder's setter of that name and each as it is: the library's creators,
/// token standard and print supply become the outside crate's values of the
/// same fields and the same variants. Nothing is promised of the builder;
/// `create_v1` alone calls this, and answers for what is built.
#[verifier::external_body]
fn create_v1_arguments(
    name: String,
    symbol: String,
    uri: String,
    seller_fee_basis_points: u16,
    creators: Vec<Creator>,
    is_mutable: bool,
    token_standard: TokenStandard,
    print_supply: PrintSupply,
) -> (builder: CreateV1Builder)
{
    let mut builder = CreateV1Builder::new();
    builder.name(name).symbol(symbol).uri(uri).seller_fee_basis_points(seller_fee_basis_points)
        .creators(creators.iter().map(|c| OutsideCreator { address: c.address.bytes.into(), verified: c.verified, share: c.share }).collect())
        .is_mutable(is_mutable)
        .token_standard(match token_standard {
            TokenStandard::NonFungible => OutsideStandard::NonFungible,
            TokenStandard::FungibleAsset => OutsideStandard::FungibleAsset,
            TokenStandard::Fungible => OutsideStandard::Fungible,
            TokenStandard::NonFungibleEdition => OutsideStandard::NonFungibleEdition,
            TokenStandard::ProgrammableNonFungible => OutsideStandard::ProgrammableNonFungible,
            TokenStandard::ProgrammableNonFungibleEdition => OutsideStandard::ProgrammableNonFungibleEdition,
        })
        .print_supply(match print_supply { PrintSupply::Zero => OutsideSupply::Zero, PrintSupply::Limited(n) => OutsideSupply::Limited(n), PrintSupply::Unlimited => OutsideSupply::Unlimited });
    builder
}

/// Builds a `CreateV1` instruction of the token metadata program with
/// `mpl_token_metadata::instructions::CreateV1Builder`: every account and
/// every argument that the builder is given is an argument here, and is handed
/// to the builder's setter of that name.
///
/// Believed of the builder: the instruction depends on these arguments alone,
/// is addressed to the token metadata program, and lists the nine accounts in
/// the order and with the rights that `create_v1_accounts` states. The builder
/// serialises the strings and the creators with a 32-bit length, and panics on
/// a longer one.
#[verifier::external_body]
fn create_v1(
    metadata: [u8; 32],
    master_edition: Option<[u8; 32]>,
    mint: [u8; 32],
    mint_signs: bool,
    authority: [u8; 32],
    payer: [u8; 32],
    update_authority: [u8; 32],
    update_authority_signs: bool,
    system_program: [u8; 32],
    sysvar_instructions: [u8; 32],
    spl_token_program: Option<[u8; 32]>,
    name: String,
    symbol: String,
    uri: String,
    seller_fee_basis_points: u16,
    creators: Vec<Creator>,
    is_mutable: bool,
    token_standard: TokenStandard,
    print_supply: PrintSupply,
) -> (ix: Instruction)
    requires
        encode_utf8(name@).len() <= u32::MAX,
        encode_utf8(symbol@).len() <= u32::MAX,
        encode_utf8(uri@).len() <= u32::MAX,
        creators@.len() <= u32::MAX,
    ensures
        ix@ == create_v1_instruction(
            metadata@,
            key_view(master_edition),
            mint@,
            mint_signs,
            authority@,
            payer@,
            update_authority@,
            update_authority_signs,
            system_program@,
            sysvar_instructions@,
            key_view(spl_token_program),
            name@,
            symbol@,
            uri@,
            seller_fee_basis_points,
            creators@,
            is_mutable,
            token_standard,
            print_supply,
        ),
        ix.program_id.bytes == TOKEN_METADATA_PROGRAM_ID,
        ix.accounts@ == create_v1_accounts(
            metadata,
            master_edition,
            mint,
            mint_signs,
            authority,
            payer,
            update_authority,
            update_authority_signs,
            system_program,
            sysvar_instructions,
            spl_token_program,
        ),
{
    let mut builder = create_v1_arguments(name, symbol, uri, seller_fee_basis_points, creators, is_mutable, token_standard, print_supply);
    let ix = builder.metadata(metadata.into()).master_edition(master_edition.map(Into::into))
        .mint(mint.into(), mint_signs).authority(authority.into()).payer(payer.into())
        .update_authority(update_authority.into(), update_authority_signs)
        .system_program(system_program.into())
        .sysvar_instructions(sysvar_instructions.into())
        .spl_token_program(spl_token_program.map(Into::into)).instruction();
    Instruction::new(
        ix.program_id.to_bytes(),
        ix.accounts.iter().map(|m| AccountMeta::new(m.pubkey.to_bytes(), m.is_signer, m.is_writable)).collect(),
        ix.data,
    )
}

/// The one creator of a booking's token: the booking user, verified, with the
/// whole share.
pub open spec fn booking_creator(ctx: BookSlot) -> Creator {
    Creator { address: ctx.user.key, verified: true, share: 100 }
}

/// The instruction that attaches the descriptor to the token of a booking: the
/// user is the mint authority, the payer and the update authority, and signs
/// as each, as the mint does; the descriptor is named after the experience,
/// takes no seller fee, has the user as its one creator, can be changed,
/// describes a non-fungible token and allows no prints.
pub open spec fn metadata_instruction(ctx: BookSlot, metadata_uri: Seq<char>, symbol: Seq<char>)
    -> InstructionView {
    create_v1_instruction(
        ctx.metadata.bytes@,
        Some(ctx.master_edition.bytes@),
        ctx.mint.bytes@,
        true,
        ctx.user.key.bytes@,
        ctx.user.key.bytes@,
        ctx.user.key.bytes@,
        true,
        ctx.system_program.bytes@,
        SYSVAR_INSTRUCTIONS_ID@,
        Some(ctx.token_program.bytes@),
        ctx.experience.title@,
        symbol,
        metadata_uri,
        0,
        seq![booking_creator(ctx)],
        true,
        TokenStandard::NonFungible,
        PrintSupply::Zero,
    )
}

/// The accounts that the instruction of a booking's descriptor names, in order.
pub open spec fn metadata_accounts(ctx: BookSlot) -> Seq<AccountMeta> {
    seq![
        AccountMeta::writable(ctx.metadata.bytes, false),
        AccountMeta::writable(ctx.master_edition.bytes, false),
        AccountMeta::writable(ctx.mint.bytes, true),
        AccountMeta::readonly(ctx.user.key.bytes, true),
        AccountMeta::writable(ctx.user.key.bytes, true),
        AccountMeta::readonly(ctx.user.key.bytes, true),
        AccountMeta::readonly(ctx.system_program.bytes, false),
        AccountMeta::readonly(SYSVAR_INSTRUCTIONS_ID, false),
        AccountMeta::readonly(ctx.token_program.bytes, false),
    ]
}

/// Whether `ix` is the instruction that attaches the descriptor with this
/// address and symbol to the token of the booking: addressed to the token
/// metadata program, with the accounts of `metadata_accounts`.
pub open spec fn is_metadata_instruction(
    ix: InstructionView,
    ctx: BookSlot,
    metadata_uri: Seq<char>,
    symbol: Seq<char>,
) -> bool {
    &&& ix == metadata_instruction(ctx, metadata_uri, symbol)
    &&& ix.program_id.bytes == TOKEN_METADATA_PROGRAM_ID
    &&& ix.accounts == metadata_accounts(ctx)
}

/// Builds the instruction that attaches a descriptor to the token of a booking:
/// it is named after the experience, carries the given symbol and address, has
/// the booking user as its only creator with a full, verified share, takes no
/// seller fee, can be changed, describes a non-fungible token and allows no
/// prints.
pub fn build_metadata_ix(ctx: &BookSlot, metadata_uri: String, symbol: String) -> (ix:
    Instruction)
    requires
        encode_utf8(ctx.experience.title@).len() <= u32::MAX,
        encode_utf8(symbol@).len() <= u32::MAX,
        encode_utf8(metadata_uri@).len() <= u32::MAX,
    ensures
        is_metadata_instruction(ix@, *ctx, metadata_uri@, symbol@),
{
    let user = ctx.user.key.bytes;
    let creators = vec![Creator { address: ctx.user.key, verified: true, share: 100 }];
    assert(creators@ =~= seq![booking_creator(*ctx)]);
    let ix = create_v1(
        ctx.metadata.bytes,
        Some(ctx.master_edition.bytes),
        ctx.mint.bytes,
        true,
        user,
        user,
        user,
        true,
        ctx.system_program.bytes,
        SYSVAR_INSTRUCTIONS_ID,
        Some(ctx.token_program.bytes),
        ctx.experience.title.clone(),
        symbol,
        metadata_uri,
        0,
        creators,
        true,
        TokenStandard::NonFungible,
        PrintSupply::Zero,
    );
    assert(ix.accounts@ =~= metadata_accounts(*ctx));
    ix
}

} // verus!
