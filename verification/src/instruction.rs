use vstd::prelude::*;
use vstd::bytes::spec_u64_to_le_bytes;
use crate::pubkey::Pubkey;
use crate::wallet::Transfer;
use anchor_lang::solana_program::program_error::ProgramError;
use anchor_lang::solana_program::system_instruction;
use anchor_spl::token::spl_token;

verus! {

/// One account that an instruction names, with the rights it is passed with.
#[derive(Clone, Copy, Debug, PartialEq, Eq)]
pub struct AccountMeta {
    pub pubkey: Pubkey,
    pub is_signer: bool,
    pub is_writable: bool,
}

/// A request to a program: the program's address, the accounts it is handed and
/// the bytes of its input.
#[derive(Clone, Debug, PartialEq, Eq)]
pub struct Instruction {
    pub program_id: Pubkey,
    pub accounts: Vec<AccountMeta>,
    pub data: Vec<u8>,
}

/// What an instruction holds.
pub struct InstructionView {
    pub program_id: Pubkey,
    pub accounts: Seq<AccountMeta>,
    pub data: Seq<u8>,
}

impl View for Instruction {
    type V = InstructionView;

    open spec fn view(&self) -> InstructionView {
        InstructionView { program_id: self.program_id, accounts: self.accounts@, data: self.data@ }
    }
}

impl AccountMeta {
    pub fn new(pubkey: [u8; 32], is_signer: bool, is_writable: bool) -> (meta: AccountMeta)
        ensures
            meta == (AccountMeta { pubkey: Pubkey { bytes: pubkey }, is_signer, is_writable }),
    {
        AccountMeta { pubkey: Pubkey { bytes: pubkey }, is_signer, is_writable }
    }

    /// An account that the program may change.
    pub open spec fn writable(pubkey: [u8; 32], is_signer: bool) -> AccountMeta {
        AccountMeta { pubkey: Pubkey { bytes: pubkey }, is_signer, is_writable: true }
    }

    /// An account that the program only reads.
    pub open spec fn readonly(pubkey: [u8; 32], is_signer: bool) -> AccountMeta {
        AccountMeta { pubkey: Pubkey { bytes: pubkey }, is_signer, is_writable: false }
    }
}

impl Instruction {
    pub fn new(program_id: [u8; 32], accounts: Vec<AccountMeta>, data: Vec<u8>) -> (ix:
        Instruction)
        ensures
            ix.program_id.bytes == program_id,
            ix.accounts == accounts,
            ix.data == data,
    {
        Instruction { program_id: Pubkey { bytes: program_id }, accounts, data }
    }
}

/// The system program, which creates accounts and moves lamports. In base 58
/// these bytes read `11111111111111111111111111111111`.
pub const SYSTEM_PROGRAM_ID: [u8; 32] = [
    0, 0, 0, 0, 0, 0, 0, 0, 0, 0, 0, 0, 0, 0, 0, 0, 0, 0, 0, 0, 0, 0, 0, 0, 0, 0, 0, 0, 0, 0, 0, 0,
];

/// The SPL token program. In base 58 these bytes read
/// `TokenkegQfeZyiNwAJbNbGKPFXCWuBvf9Ss623VQ5DA`.
pub const SPL_TOKEN_PROGRAM_ID: [u8; 32] = [
    6, 221, 246, 225, 215, 101, 161, 147, 217, 203, 225, 70, 206, 235, 121, 172, 28, 180, 133, 237,
    95, 91, 55, 145, 58, 140, 245, 133, 126, 255, 0, 169,
];

/// The token metadata program. In base 58 these bytes read
/// `metaqbxxUerdq28cj1RbAWkYQm3ybzjb6a8bt518x1s`.
pub const TOKEN_METADATA_PROGRAM_ID: [u8; 32] = [
    11, 112, 101, 177, 227, 209, 124, 69, 56, 157, 82, 127, 107, 4, 195, 205, 88, 184, 108, 115,
    26, 160, 253, 181, 73, 182, 209, 188, 3, 248, 41, 70,
];

/// The sysvar that holds the rent schedule. In base 58 these bytes read
/// `SysvarRent111111111111111111111111111111111`.
pub const SYSVAR_RENT_ID: [u8; 32] = [
    6, 167, 213, 23, 25, 44, 92, 81, 33, 140, 201, 76, 61, 74, 241, 127, 88, 218, 238, 8, 155, 161,
    253, 68, 227, 219, 217, 138, 0, 0, 0, 0,
];

/// The sysvar through which a program reads the instructions of the running
/// transaction. In base 58 these bytes read
/// `Sysvar1nstructions1111111111111111111111111`.
pub const SYSVAR_INSTRUCTIONS_ID: [u8; 32] = [
    6, 167, 213, 23, 24, 123, 209, 102, 53, 218, 212, 4, 85, 253, 194, 192, 193, 36, 198, 143, 33,
    86, 117, 165, 219, 186, 203, 95, 8, 0, 0, 0,
];

/// Bytes that the account of a token mint takes.
pub const MINT_ACCOUNT_LEN: u64 = 82;

/// The error of a program, as the runtime knows it.
#[verifier::external_type_specification]
#[verifier::external_body]
pub struct ExProgramError(anchor_lang::solana_program::program_error::ProgramError);

/// The input of the system program's `Transfer`: the instruction's number in
/// four bytes, then the lamports in eight, each with the low byte first.
pub open spec fn system_transfer_data(lamports: u64) -> Seq<u8> {
    seq![2u8, 0u8, 0u8, 0u8] + spec_u64_to_le_bytes(lamports)
}

/// The input of the system program's `CreateAccount`: the instruction's number
/// in four bytes, then the lamports and the space in eight bytes each, all with
/// the low byte first, then the owner.
pub open spec fn system_create_account_data(lamports: u64, space: u64, owner: Seq<u8>) -> Seq<u8> {
    seq![0u8, 0u8, 0u8, 0u8] + spec_u64_to_le_bytes(lamports) + spec_u64_to_le_bytes(space) + owner
}

/// The input of the token program's `InitializeMint`: the instruction's number,
/// the decimals, the mint authority, and the freeze authority behind a byte
/// that tells whether there is one.
pub open spec fn initialize_mint_data(
    decimals: u8,
    mint_authority: Seq<u8>,
    freeze_authority: Option<Seq<u8>>,
) -> Seq<u8> {
    seq![0u8, decimals] + mint_authority + match freeze_authority {
        Some(key) => seq![1u8] + key,
        None => seq![0u8],
    }
}

/// Builds a transfer of the system program with
/// `solana_program::system_instruction::transfer`.
///
/// Believed of it: the instruction is addressed to the system program, names
/// the payer as a writable signer and the payee as writable, and its input is
/// as `system_transfer_data` says.
#[verifier::external_body]
fn system_transfer(from: [u8; 32], to: [u8; 32], lamports: u64) -> (ix: Instruction)
    ensures
        ix@ == (InstructionView {
            program_id: Pubkey { bytes: SYSTEM_PROGRAM_ID },
            accounts: seq![AccountMeta::writable(from, true), AccountMeta::writable(to, false)],
            data: system_transfer_data(lamports),
        }),
{
    let ix = system_instruction::transfer(&from.into(), &to.into(), lamports);
    Instruction::new(
        ix.program_id.to_bytes(),
        ix.accounts.iter().map(|m| AccountMeta::new(m.pubkey.to_bytes(), m.is_signer, m.is_writable)).collect(),
        ix.data,
    )
}

/// Builds an account creation of the system program with
/// `solana_program::system_instruction::create_account`.
///
/// Believed of it: the instruction is addressed to the system program, names
/// the payer and the new account as writable signers, and its input is as
/// `system_create_account_data` says.
#[verifier::external_body]
fn system_create_account(
    from: [u8; 32],
    to: [u8; 32],
    lamports: u64,
    space: u64,
    owner: [u8; 32],
) -> (ix: Instruction)
    ensures
        ix@ == (InstructionView {
            program_id: Pubkey { bytes: SYSTEM_PROGRAM_ID },
            accounts: seq![AccountMeta::writable(from, true), AccountMeta::writable(to, true)],
            data: system_create_account_data(lamports, space, owner@),
        }),
{
    let ix = system_instruction::create_account(
        &from.into(),
        &to.into(),
        lamports,
        space,
        &owner.into(),
    );
    Instruction::new(
        ix.program_id.to_bytes(),
        ix.accounts.iter().map(|m| AccountMeta::new(m.pubkey.to_bytes(), m.is_signer, m.is_writable)).collect(),
        ix.data,
    )
}

/// Builds the initialisation of a mint with
/// `spl_token::instruction::initialize_mint`.
///
/// Believed of it: it fails exactly when `token_program` is not the SPL token
/// program. Otherwise the instruction is addressed to `token_program`, names
/// the mint as writable and the rent sysvar, and its input is as
/// `initialize_mint_data` says.
#[verifier::external_body]
fn initialize_mint(
    token_program: [u8; 32],
    mint: [u8; 32],
    mint_authority: [u8; 32],
    freeze_authority: Option<[u8; 32]>,
    decimals: u8,
) -> (r: Result<Instruction, ProgramError>)
    ensures
        r is Ok <==> token_program == SPL_TOKEN_PROGRAM_ID,
        r matches Ok(ix) ==> ix@ == (InstructionView {
            program_id: Pubkey { bytes: token_program },
            accounts: seq![
                AccountMeta::writable(mint, false),
                AccountMeta::readonly(SYSVAR_RENT_ID, false),
            ],
            data: initialize_mint_data(
                decimals,
                mint_authority@,
                match freeze_authority {
                    Some(key) => Some(key@),
                    None => None,
                },
            ),
        }),
{
    let freeze: Option<anchor_lang::solana_program::pubkey::Pubkey> = freeze_authority.map(Into::into);
    let ix = spl_token::instruction::initialize_mint(
        &token_program.into(),
        &mint.into(),
        &mint_authority.into(),
        freeze.as_ref(),
        decimals,
    )?;
    Ok(Instruction::new(
        ix.program_id.to_bytes(),
        ix.accounts.iter().map(|m| AccountMeta::new(m.pubkey.to_bytes(), m.is_signer, m.is_writable)).collect(),
        ix.data,
    ))
}

/// The system program's transfer for this leg.
pub open spec fn transfer_of(leg: Transfer) -> InstructionView {
    InstructionView {
        program_id: Pubkey { bytes: SYSTEM_PROGRAM_ID },
        accounts: seq![
            AccountMeta::writable(leg.from.bytes, true),
            AccountMeta::writable(leg.to.bytes, false),
        ],
        data: system_transfer_data(leg.lamports),
    }
}

/// The system program's creation of the account `mint` for a token mint, owned
/// by `token_program`, endowed with `rent` lamports and paid for by `payer`.
pub open spec fn mint_account_creation(
    payer: Pubkey,
    mint: Pubkey,
    rent: u64,
    token_program: Pubkey,
) -> InstructionView {
    InstructionView {
        program_id: Pubkey { bytes: SYSTEM_PROGRAM_ID },
        accounts: seq![
            AccountMeta::writable(payer.bytes, true),
            AccountMeta::writable(mint.bytes, true),
        ],
        data: system_create_account_data(rent, MINT_ACCOUNT_LEN, token_program.bytes@),
    }
}

/// The token program's initialisation of `mint` as a mint without decimals, of
/// which `authority` may mint and freeze.
pub open spec fn mint_initialisation(token_program: Pubkey, mint: Pubkey, authority: Pubkey)
    -> InstructionView {
    InstructionView {
        program_id: token_program,
        accounts: seq![
            AccountMeta::writable(mint.bytes, false),
            AccountMeta::readonly(SYSVAR_RENT_ID, false),
        ],
        data: initialize_mint_data(0, authority.bytes@, Some(authority.bytes@)),
    }
}

/// The instruction that carries out one leg of a settlement.
pub fn transfer_instruction(leg: &Transfer) -> (ix: Instruction)
    ensures
        ix@ == transfer_of(*leg),
{
    system_transfer(leg.from.bytes, leg.to.bytes, leg.lamports)
}

/// The instruction that creates the account of a token's mint: `payer` endows
/// it with `rent` lamports, and `token_program` owns it.
pub fn create_mint_account_instruction(
    payer: &Pubkey,
    mint: &Pubkey,
    rent: u64,
    token_program: &Pubkey,
) -> (ix: Instruction)
    ensures
        ix@ == mint_account_creation(*payer, *mint, rent, *token_program),
{
    system_create_account(payer.bytes, mint.bytes, rent, MINT_ACCOUNT_LEN, token_program.bytes)
}

/// The instruction that initialises `mint` as a mint without decimals, of which
/// `authority` may mint and freeze; none where `token_program` is not the SPL
/// token program.
pub fn initialize_mint_instruction(token_program: &Pubkey, mint: &Pubkey, authority: &Pubkey) -> (r:
    Option<Instruction>)
    ensures
        r is Some <==> token_program.bytes == SPL_TOKEN_PROGRAM_ID,
        r matches Some(ix) ==> ix@ == mint_initialisation(*token_program, *mint, *authority),
{
    match initialize_mint(
        token_program.bytes,
        mint.bytes,
        authority.bytes,
        Some(authority.bytes),
        0,
    ) {
        Ok(ix) => Some(ix),
        Err(_) => None,
    }
}

/// One thing to do to carry an operation out.
#[derive(Clone, Debug, PartialEq, Eq)]
pub enum Step {
    /// Invoke the instruction.
    Invoke(Instruction),
    /// Create the token account that is associated with `owner` and `mint`, at
    /// `token_account`, paid for by `payer`.
    CreateTokenAccount { payer: Pubkey, token_account: Pubkey, owner: Pubkey, mint: Pubkey },
    /// Mint `amount` tokens of `mint` into the token account `to`, on the word
    /// of `authority`.
    MintTo { mint: Pubkey, to: Pubkey, authority: Pubkey, amount: u64 },
}

/// What a step holds.
pub enum StepView {
    Invoke(InstructionView),
    CreateTokenAccount { payer: Pubkey, token_account: Pubkey, owner: Pubkey, mint: Pubkey },
    MintTo { mint: Pubkey, to: Pubkey, authority: Pubkey, amount: u64 },
}

impl View for Step {
    type V = StepView;

    open spec fn view(&self) -> StepView {
        match *self {
            Step::Invoke(ix) => StepView::Invoke(ix@),
            Step::CreateTokenAccount { payer, token_account, owner, mint } => {
                StepView::CreateTokenAccount { payer, token_account, owner, mint }
            },
            Step::MintTo { mint, to, authority, amount } => {
                StepView::MintTo { mint, to, authority, amount }
            },
        }
    }
}

/// What the steps hold, in their order.
pub open spec fn steps_view(steps: Seq<Step>) -> Seq<StepView> {
    steps.map_values(|step: Step| step@)
}

} // verus!
