//! Instruction descriptors as the service sends them, their conversion into
//! executable instructions, and the assembly of a swap's instruction list.
use vstd::prelude::*;

use crate::codec::{address_bytes, base64_bytes, base64_decode, Address};
use crate::error::Error;
use crate::json::JsonValue;

verus! {

/// One account of an instruction descriptor, its address still as text.
#[derive(Debug, Clone)]
pub struct JupiterAccount {
    pub pubkey: String,
    pub is_signer: bool,
    pub is_writable: bool,
}

/// An instruction as the service describes it: program address and account
/// addresses as base58 text, payload as base64 text.
#[derive(Debug, Clone)]
pub struct JupiterInstruction {
    pub program_id: String,
    pub accounts: Vec<JupiterAccount>,
    pub data: String,
}

/// An account of an executable instruction.
#[derive(Debug, Clone, Copy, PartialEq, Eq)]
pub struct AccountMeta {
    pub pubkey: Address,
    pub is_signer: bool,
    pub is_writable: bool,
}

/// An executable instruction.
#[derive(Debug, Clone)]
pub struct Instruction {
    pub program_id: Address,
    pub accounts: Vec<AccountMeta>,
    pub data: Vec<u8>,
}

pub open spec fn account_converts(a: JupiterAccount, m: AccountMeta) -> bool {
    &&& address_bytes(a.pubkey@) == Some(m.pubkey.bytes@)
    &&& m.is_signer == a.is_signer
    &&& m.is_writable == a.is_writable
}

/// Every address of the descriptor, program and accounts, is valid base58.
pub open spec fn addresses_valid(d: JupiterInstruction) -> bool {
    &&& address_bytes(d.program_id@) is Some
    &&& forall|k: int|
        0 <= k < d.accounts@.len() ==> address_bytes((#[trigger] d.accounts@[k]).pubkey@) is Some
}

pub open spec fn descriptor_valid(d: JupiterInstruction) -> bool {
    addresses_valid(d) && base64_bytes(d.data@) is Some
}

/// `i` is the instruction that the descriptor `d` stands for: the same
/// program, the same accounts in the same order, the decoded payload.
pub open spec fn instruction_converts(d: JupiterInstruction, i: Instruction) -> bool {
    &&& address_bytes(d.program_id@) == Some(i.program_id.bytes@)
    &&& i.accounts@.len() == d.accounts@.len()
    &&& forall|k: int| 0 <= k < d.accounts@.len() ==> account_converts(
        #[trigger] d.accounts@[k],
        i.accounts@[k],
    )
    &&& base64_bytes(d.data@) == Some(i.data@)
}

/// What converting a descriptor must give: an address failure if any
/// address is invalid, else a payload failure if the payload is not base64,
/// else the instruction.
pub open spec fn instruction_outcome(d: JupiterInstruction, r: Result<Instruction, Error>) -> bool {
    if !addresses_valid(d) {
        r matches Err(Error::ParsePubkey(_))
    } else if base64_bytes(d.data@) is None {
        r matches Err(Error::Base64Decode(_))
    } else {
        r matches Ok(i) && instruction_converts(d, i)
    }
}

impl JupiterInstruction {
    /// Converts the descriptor into an executable instruction.
    pub fn into_instruction(self) -> (r: Result<Instruction, Error>)
        ensures
            instruction_outcome(self, r),
    {
        self.to_instruction()
    }

    /// Converts the descriptor into an executable instruction, leaving it
    /// in place.
    pub fn to_instruction(&self) -> (r: Result<Instruction, Error>)
        ensures
            instruction_outcome(*self, r),
    {
        let program_id = match Address::parse(self.program_id.as_str()) {
            Ok(a) => a,
            Err(e) => return Err(Error::ParsePubkey(e)),
        };
        let mut accounts: Vec<AccountMeta> = Vec::new();
        let n = self.accounts.len();
        for i in 0..n
            invariant
                n == self.accounts@.len(),
                address_bytes(self.program_id@) == Some(program_id.bytes@),
                accounts@.len() == i,
                forall|k: int| 0 <= k < i ==> account_converts(
                    #[trigger] self.accounts@[k],
                    accounts@[k],
                ),
        {
            let acc = &self.accounts[i];
            let pubkey = match Address::parse(acc.pubkey.as_str()) {
                Ok(a) => a,
                Err(e) => {
                    assert(!addresses_valid(*self)) by {
                        assert(address_bytes(self.accounts@[i as int].pubkey@) is None);
                    }
                    return Err(Error::ParsePubkey(e));
                },
            };
            accounts.push(
                AccountMeta { pubkey, is_signer: acc.is_signer, is_writable: acc.is_writable },
            );
        }
        assert(addresses_valid(*self)) by {
            assert forall|k: int| 0 <= k < self.accounts@.len() implies address_bytes(
                (#[trigger] self.accounts@[k]).pubkey@,
            ) is Some by {
                assert(account_converts(self.accounts@[k], accounts@[k]));
            }
        }
        let data = match base64_decode(self.data.as_str()) {
            Ok(b) => b,
            Err(e) => return Err(Error::Base64Decode(e)),
        };
        Ok(Instruction { program_id, accounts, data })
    }
}

} // verus!

verus! {

/// The compute budget that the service chose for the swap.
#[derive(Debug, Clone, Copy, PartialEq, Eq)]
pub struct ComputeBudget {
    pub estimated_micro_lamports: u64,
    pub micro_lamports: u64,
}

#[derive(Debug, Clone, Copy, PartialEq, Eq)]
pub struct PrioritizationType {
    pub compute_budget: ComputeBudget,
}

/// The service's reply in instruction mode: the descriptors to assemble
/// and the metadata that came with them.
#[derive(Debug)]
pub struct SwapInstructions {
    pub token_ledger_instruction: Option<JupiterInstruction>,
    pub compute_budget_instructions: Vec<JupiterInstruction>,
    pub setup_instructions: Vec<JupiterInstruction>,
    pub swap_instruction: JupiterInstruction,
    pub cleanup_instruction: Option<JupiterInstruction>,
    pub address_lookup_table_addresses: Vec<String>,
    pub compute_unit_limit: u32,
    pub dynamic_slippage_report: Option<JsonValue>,
    pub other_instructions: Vec<JupiterInstruction>,
    pub prioritization_fee_lamports: u64,
    pub prioritization_type: PrioritizationType,
    pub simulation_error: Option<String>,
    pub simulation_slot: Option<u64>,
    pub program_id: String,
    pub data: String,
}

pub open spec fn optional_seq<T>(o: Option<T>) -> Seq<T> {
    match o {
        Some(x) => seq![x],
        None => Seq::empty(),
    }
}

/// The descriptors of a reply in the order in which they must execute:
/// compute budget, setup, the swap itself, then cleanup if there is one.
pub open spec fn ordered_descriptors(s: SwapInstructions) -> Seq<JupiterInstruction> {
    s.compute_budget_instructions@ + s.setup_instructions@ + seq![s.swap_instruction]
        + optional_seq(s.cleanup_instruction)
}

pub open spec fn all_valid(ds: Seq<JupiterInstruction>) -> bool {
    forall|k: int| 0 <= k < ds.len() ==> descriptor_valid(#[trigger] ds[k])
}

/// `v` converts `ds` one for one, in the same order.
pub open spec fn converts_all(ds: Seq<JupiterInstruction>, v: Seq<Instruction>) -> bool {
    &&& v.len() == ds.len()
    &&& forall|k: int| 0 <= k < ds.len() ==> instruction_converts(#[trigger] ds[k], v[k])
}

/// `e` is the failure of the first descriptor of `ds` that does not convert.
pub open spec fn fails_first(ds: Seq<JupiterInstruction>, e: Error) -> bool {
    exists|k: int|
        0 <= k < ds.len() && (forall|j: int| 0 <= j < k ==> descriptor_valid(#[trigger] ds[j]))
            && !descriptor_valid(#[trigger] ds[k]) && instruction_outcome(ds[k], Err(e))
}

pub open spec fn assembly_outcome(ds: Seq<JupiterInstruction>, r: Result<Vec<Instruction>, Error>) -> bool {
    &&& r is Ok <==> all_valid(ds)
    &&& r matches Ok(v) ==> converts_all(ds, v@)
    &&& r matches Err(e) ==> fails_first(ds, e)
}

proof fn lemma_outcome_valid(d: JupiterInstruction, r: Result<Instruction, Error>)
    requires
        instruction_outcome(d, r),
    ensures
        r is Ok <==> descriptor_valid(d),
{
}

proof fn lemma_converts_concat(
    a: Seq<JupiterInstruction>,
    va: Seq<Instruction>,
    b: Seq<JupiterInstruction>,
    vb: Seq<Instruction>,
)
    requires
        converts_all(a, va),
        converts_all(b, vb),
    ensures
        converts_all(a + b, va + vb),
{
    assert forall|k: int| 0 <= k < (a + b).len() implies instruction_converts(
        #[trigger] (a + b)[k],
        (va + vb)[k],
    ) by {
        if k < a.len() {
            assert((a + b)[k] == a[k]);
        } else {
            assert((a + b)[k] == b[k - a.len()]);
        }
    }
}

proof fn lemma_fails_first_extend(
    pre: Seq<JupiterInstruction>,
    ds: Seq<JupiterInstruction>,
    post: Seq<JupiterInstruction>,
    e: Error,
)
    requires
        all_valid(pre),
        fails_first(ds, e),
    ensures
        fails_first(pre + ds + post, e),
{
    let k = choose|k: int|
        0 <= k < ds.len() && (forall|j: int| 0 <= j < k ==> descriptor_valid(#[trigger] ds[j]))
            && !descriptor_valid(#[trigger] ds[k]) && instruction_outcome(ds[k], Err(e));
    let all = pre + ds + post;
    let m = pre.len() + k;
    assert(all[m] == ds[k]);
    assert forall|j: int| 0 <= j < m implies descriptor_valid(#[trigger] all[j]) by {
        if j < pre.len() {
            assert(all[j] == pre[j]);
        } else {
            assert(all[j] == ds[j - pre.len()]);
        }
    }
}

proof fn lemma_all_valid_concat(a: Seq<JupiterInstruction>, b: Seq<JupiterInstruction>)
    ensures
        all_valid(a + b) <==> all_valid(a) && all_valid(b),
{
    if all_valid(a + b) {
        assert forall|k: int| 0 <= k < a.len() implies descriptor_valid(#[trigger] a[k]) by {
            assert((a + b)[k] == a[k]);
        }
        assert forall|k: int| 0 <= k < b.len() implies descriptor_valid(#[trigger] b[k]) by {
            assert((a + b)[a.len() + k] == b[k]);
        }
    }
    if all_valid(a) && all_valid(b) {
        assert forall|k: int| 0 <= k < (a + b).len() implies descriptor_valid(
            #[trigger] (a + b)[k],
        ) by {
            if k < a.len() {
                assert((a + b)[k] == a[k]);
            } else {
                assert((a + b)[k] == b[k - a.len()]);
            }
        }
    }
}

/// Converts the descriptors of `ds` in order, appending each instruction
/// to `out`; stops at the first descriptor that does not convert.
fn convert_into(ds: &Vec<JupiterInstruction>, out: &mut Vec<Instruction>) -> (r: Result<(), Error>)
    ensures
        r is Ok <==> all_valid(ds@),
        r is Ok ==> final(out)@.len() == old(out)@.len() + ds@.len(),
        r is Ok ==> final(out)@.subrange(0, old(out)@.len() as int) == old(out)@,
        r is Ok ==> converts_all(
            ds@,
            final(out)@.subrange(old(out)@.len() as int, final(out)@.len() as int),
        ),
        r matches Err(e) ==> fails_first(ds@, e),
{
    let ghost start = out@;
    let n = ds.len();
    for i in 0..n
        invariant
            n == ds@.len(),
            out@.len() == start.len() + i,
            out@.subrange(0, start.len() as int) == start,
            converts_all(ds@.subrange(0, i as int), out@.subrange(start.len() as int, out@.len() as int)),
            forall|j: int| 0 <= j < i ==> descriptor_valid(#[trigger] ds@[j]),
    {
        let res = ds[i].to_instruction();
        proof {
            lemma_outcome_valid(ds@[i as int], res);
        }
        match res {
            Ok(ins) => {
                let ghost before = out@;
                out.push(ins);
                proof {
                    assert(out@.subrange(0, start.len() as int) =~= before.subrange(0, start.len() as int));
                    let done = ds@.subrange(0, i as int);
                    assert(ds@.subrange(0, i + 1) =~= done + seq![ds@[i as int]]);
                    assert(out@.subrange(start.len() as int, out@.len() as int) =~= before.subrange(
                        start.len() as int,
                        before.len() as int,
                    ) + seq![ins]);
                    lemma_converts_concat(
                        done,
                        before.subrange(start.len() as int, before.len() as int),
                        seq![ds@[i as int]],
                        seq![ins],
                    );
                }
            },
            Err(e) => {
                assert(!all_valid(ds@));
                assert(fails_first(ds@, e)) by {
                    assert(forall|j: int| 0 <= j < i ==> descriptor_valid(#[trigger] ds@[j]));
                }
                return Err(e);
            },
        }
    }
    assert(ds@.subrange(0, n as int) =~= ds@);
    Ok(())
}

} // verus!

verus! {

impl SwapInstructions {
    /// Converts every descriptor of the reply into an executable
    /// instruction, keeping the execution order: compute budget, setup, the
    /// swap, cleanup. Nothing is reordered, dropped or merged.
    pub fn assemble_instructions(&self) -> (r: Result<Vec<Instruction>, Error>)
        ensures
            assembly_outcome(ordered_descriptors(*self), r),
    {
        let ghost cb = self.compute_budget_instructions@;
        let ghost setup = self.setup_instructions@;
        let ghost swap = seq![self.swap_instruction];
        let ghost cleanup = optional_seq(self.cleanup_instruction);
        let ghost all = ordered_descriptors(*self);
        assert(all == cb + setup + swap + cleanup);
        let mut out: Vec<Instruction> = Vec::new();
        match convert_into(&self.compute_budget_instructions, &mut out) {
            Ok(()) => {},
            Err(e) => {
                proof {
                    lemma_fails_first_extend(Seq::empty(), cb, setup + swap + cleanup, e);
                    assert(Seq::<JupiterInstruction>::empty() + cb + (setup + swap + cleanup) =~= all);
                    lemma_all_valid_concat(cb, setup + swap + cleanup);
                    assert(cb + (setup + swap + cleanup) =~= all);
                }
                return Err(e);
            },
        }
        let ghost after_cb = out@;
        assert(after_cb =~= after_cb.subrange(0, 0) + after_cb.subrange(0, after_cb.len() as int));
        match convert_into(&self.setup_instructions, &mut out) {
            Ok(()) => {},
            Err(e) => {
                proof {
                    lemma_fails_first_extend(cb, setup, swap + cleanup, e);
                    assert(cb + setup + (swap + cleanup) =~= all);
                    lemma_all_valid_concat(cb + setup, swap + cleanup);
                    lemma_all_valid_concat(cb, setup);
                    assert(cb + setup + (swap + cleanup) =~= all);
                }
                return Err(e);
            },
        }
        let ghost after_setup = out@;
        proof {
            assert(after_setup =~= after_cb + after_setup.subrange(
                after_cb.len() as int,
                after_setup.len() as int,
            ));
            lemma_converts_concat(
                cb,
                after_cb,
                setup,
                after_setup.subrange(after_cb.len() as int, after_setup.len() as int),
            );
            lemma_all_valid_concat(cb, setup);
        }
        let res = self.swap_instruction.to_instruction();
        proof {
            lemma_outcome_valid(self.swap_instruction, res);
        }
        match res {
            Ok(ins) => {
                out.push(ins);
                proof {
                    assert(out@ =~= after_setup + seq![ins]);
                    lemma_converts_concat(cb + setup, after_setup, swap, seq![ins]);
                    assert(all_valid(swap));
                    lemma_all_valid_concat(cb + setup, swap);
                }
            },
            Err(e) => {
                proof {
                    assert(fails_first(swap, e)) by {
                        assert(swap[0] == self.swap_instruction);
                    }
                    lemma_fails_first_extend(cb + setup, swap, cleanup, e);
                    lemma_all_valid_concat(cb + setup + swap, cleanup);
                    lemma_all_valid_concat(cb + setup, swap);
                    assert(!all_valid(swap)) by {
                        assert(swap[0] == self.swap_instruction);
                    }
                }
                return Err(e);
            },
        }
        let ghost after_swap = out@;
        match &self.cleanup_instruction {
            None => {
                proof {
                    assert(all =~= cb + setup + swap);
                }
            },
            Some(c) => {
                let res = c.to_instruction();
                proof {
                    lemma_outcome_valid(*c, res);
                }
                match res {
                    Ok(ins) => {
                        out.push(ins);
                        proof {
                            assert(out@ =~= after_swap + seq![ins]);
                            lemma_converts_concat(cb + setup + swap, after_swap, cleanup, seq![ins]);
                            assert(all_valid(cleanup));
                            lemma_all_valid_concat(cb + setup + swap, cleanup);
                        }
                    },
                    Err(e) => {
                        proof {
                            assert(fails_first(cleanup, e)) by {
                                assert(cleanup[0] == *c);
                            }
                            lemma_fails_first_extend(cb + setup + swap, cleanup, Seq::empty(), e);
                            assert(cb + setup + swap + cleanup + Seq::<JupiterInstruction>::empty()
                                =~= all);
                            lemma_all_valid_concat(cb + setup + swap, cleanup);
                            assert(!all_valid(cleanup)) by {
                                assert(cleanup[0] == *c);
                            }
                        }
                        return Err(e);
                    },
                }
            },
        }
        Ok(out)
    }
}

} // verus!

verus! {

/// Assembly keeps the descriptors' order: in a successful assembly the
/// compute budget instructions come first, then each setup instruction in
/// its place, then the swap instruction, then the cleanup instruction last.
pub proof fn lemma_assembly_keeps_order(s: SwapInstructions, v: Vec<Instruction>)
    requires
        assembly_outcome(ordered_descriptors(s), Ok(v)),
    ensures
        ({
            let nc = s.compute_budget_instructions@.len() as int;
            let ns = s.setup_instructions@.len() as int;
            &&& v@.len() == nc + ns + 1 + optional_seq(s.cleanup_instruction).len()
            &&& forall|k: int| 0 <= k < nc ==> instruction_converts(
                #[trigger] s.compute_budget_instructions@[k],
                v@[k],
            )
            &&& forall|k: int| 0 <= k < ns ==> instruction_converts(
                #[trigger] s.setup_instructions@[k],
                v@[nc + k],
            )
            &&& instruction_converts(s.swap_instruction, v@[nc + ns])
            &&& s.cleanup_instruction matches Some(c) ==> instruction_converts(c, v@[nc + ns + 1])
        }),
{
    let all = ordered_descriptors(s);
    let nc = s.compute_budget_instructions@.len() as int;
    let ns = s.setup_instructions@.len() as int;
    assert forall|k: int| 0 <= k < nc implies instruction_converts(
        #[trigger] s.compute_budget_instructions@[k],
        v@[k],
    ) by {
        assert(all[k] == s.compute_budget_instructions@[k]);
    }
    assert forall|k: int| 0 <= k < ns implies instruction_converts(
        #[trigger] s.setup_instructions@[k],
        v@[nc + k],
    ) by {
        assert(all[nc + k] == s.setup_instructions@[k]);
    }
    assert(all[nc + ns] == s.swap_instruction);
    if let Some(c) = s.cleanup_instruction {
        assert(all[nc + ns + 1] == c);
    }
}

} // verus!
