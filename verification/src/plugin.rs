//! The validator plugin: its settings, the address of the service program it
//! serves, and which instructions of a transaction are paid commands.

use vstd::prelude::*;
use crate::account_filter::{ProgramInstruction, TxMessage};
use crate::commands::{same_pubkey, Pubkey};

verus! {

/// The plugin's settings.
#[derive(Debug)]
pub struct FusionEnginePlugin {
    libpath: String,
    validator_config: String,
}

impl FusionEnginePlugin {
    /// The path of the plugin's library.
    pub closed spec fn libpath_view(&self) -> Seq<char> {
        self.libpath@
    }

    /// The path of the validator's configuration.
    pub closed spec fn validator_config_view(&self) -> Seq<char> {
        self.validator_config@
    }

    /// A plugin with empty settings.
    pub fn new() -> (plugin: Self)
        ensures
            plugin.libpath_view() == Seq::<char>::empty(),
            plugin.validator_config_view() == Seq::<char>::empty(),
    {
        FusionEnginePlugin { libpath: String::new(), validator_config: String::new() }
    }

    /// The name under which the validator loads the plugin.
    pub fn name(&self) -> (name: &'static str)
        ensures
            name@ == "FusionEnginePlugin"@,
    {
        "FusionEnginePlugin"
    }
}

impl Default for FusionEnginePlugin {
    fn default() -> (plugin: Self)
        ensures
            plugin.libpath_view() == Seq::<char>::empty(),
            plugin.validator_config_view() == Seq::<char>::empty(),
    {
        FusionEnginePlugin::new()
    }
}

/// The bytes that a JSON array of numbers from 0 to 255 lists, or `None` when
/// the text is not such an array. It depends on the text alone.
pub uninterp spec fn json_byte_array(text: Seq<char>) -> Option<Seq<u8>>;

/// `serde_json::from_str::<Vec<u8>>`: the bytes listed by a JSON array; what
/// it accepts and what it returns are named, not described.
#[verifier::external_body]
fn parse_json_bytes(text: &str) -> (bytes: Option<Vec<u8>>)
    ensures
        bytes is Some <==> json_byte_array(text@) is Some,
        bytes matches Some(b) ==> json_byte_array(text@) == Some(b@),
{
    serde_json::from_str::<Vec<u8>>(text).ok()
}

/// The public half of a 64-byte keypair: its last 32 bytes.
pub open spec fn keypair_public_key(keypair: Seq<u8>) -> Seq<u8> {
    keypair.subrange(32, 64)
}

/// The public half of a keypair is its bytes 32 to 63, in order: 32 bytes, the
/// `i`-th of which is byte `32 + i` of the keypair.
pub proof fn lemma_public_half(keypair: Seq<u8>)
    requires
        keypair.len() == 64,
    ensures
        keypair_public_key(keypair).len() == 32,
        forall|i: int| 0 <= i < 32 ==> keypair_public_key(keypair)[i] == keypair[32 + i],
{
}

/// The address of the service program whose 64-byte keypair is `keypair`.
pub fn validator_id_from_keypair(keypair: &Vec<u8>) -> (id: Pubkey)
    requires
        keypair@.len() == 64,
    ensures
        id.bytes@ == keypair_public_key(keypair@),
        forall|i: int| 0 <= i < 32 ==> id.bytes@[i] == keypair@[32 + i],
{
    let mut bytes = [0u8; 32];
    let mut i: usize = 0;
    while i < 32
        invariant
            i <= 32,
            keypair@.len() == 64,
            bytes@.len() == 32,
            forall|j: int| 0 <= j < i ==> bytes@[j] == keypair@[32 + j],
        decreases 32 - i,
    {
        bytes[i] = keypair[32 + i];
        i = i + 1;
    }
    let id = Pubkey { bytes };
    assert(id.bytes@ =~= keypair_public_key(keypair@));
    id
}

/// The address of the service program, read from the JSON text of its
/// keypair file. `None` when the text is not a JSON array of 64 bytes.
pub fn validator_id_from_keypair_json(text: &str) -> (id: Option<Pubkey>)
    ensures
        id is Some <==> (json_byte_array(text@) matches Some(k) && k.len() == 64),
        id matches Some(key) ==> key.bytes@ == keypair_public_key(json_byte_array(text@)->0),
        id matches Some(key) ==> forall|i: int|
            0 <= i < 32 ==> key.bytes@[i] == json_byte_array(text@)->0[32 + i],
{
    match parse_json_bytes(text) {
        Some(keypair) => {
            if keypair.len() == 64 {
                Some(validator_id_from_keypair(&keypair))
            } else {
                None
            }
        },
        None => None,
    }
}

/// The data of the instructions, among `instructions`, that call `program`,
/// in order.
pub open spec fn program_calls(instructions: Seq<(Seq<u8>, Seq<u8>)>, program: Seq<u8>) -> Seq<
    Seq<u8>,
>
    decreases instructions.len(),
{
    if instructions.len() == 0 {
        Seq::empty()
    } else {
        let rest = program_calls(instructions.drop_last(), program);
        if instructions.last().0 == program {
            rest.push(instructions.last().1)
        } else {
            rest
        }
    }
}

/// The data of the instructions of `message` that call the service program
/// `program`, in the order in which the transaction makes them: the commands
/// that the transaction pays for.
pub fn commands_for_program(message: &TxMessage, program: &Pubkey) -> (calls: Vec<Vec<u8>>)
    ensures
        calls@.map_values(|d: Vec<u8>| d@) == program_calls(message@.1, program.bytes@),
{
    let mut calls: Vec<Vec<u8>> = Vec::new();
    let mut i: usize = 0;
    while i < message.instructions.len()
        invariant
            i <= message.instructions@.len(),
            calls@.map_values(|d: Vec<u8>| d@) == program_calls(
                message@.1.subrange(0, i as int),
                program.bytes@,
            ),
        decreases message.instructions@.len() - i,
    {
        let instruction: &ProgramInstruction = &message.instructions[i];
        let ghost before = calls@;
        proof {
            let next = message@.1.subrange(0, i + 1);
            assert(next.drop_last() =~= message@.1.subrange(0, i as int));
            assert(next.last() == instruction@);
        }
        if same_pubkey(&instruction.program_id, program) {
            calls.push(instruction.data.clone());
            assert(calls@.map_values(|d: Vec<u8>| d@) =~= before.map_values(|d: Vec<u8>| d@).push(
                instruction.data@,
            ));
        }
        i = i + 1;
    }
    assert(message@.1.subrange(0, message.instructions@.len() as int) =~= message@.1);
    calls
}

} // verus!
