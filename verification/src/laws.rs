//! Laws relating the operations to one another.
use crate::instructions::deposit::{deposit_spec, DepositAccounts, DepositState};
use crate::instructions::redeem::{redeem_spec, RedeemAccounts, RedeemState};
use vstd::prelude::*;

verus! {

/// Round trip: a deposit of `amount` followed by a redemption of `amount`
/// by the same holder restores the holder share account's balance, the
/// holder's native balance, the vault authority's native balance and the
/// share supply to their pre-deposit values. Stated for a holder whose
/// share account already exists: a first deposit also funds that account's
/// rent, which redemption does not return.
pub proof fn lemma_deposit_redeem_round_trip(
    dacc: DepositAccounts,
    racc: RedeemAccounts,
    st: DepositState,
    amount: u64,
    ata_rent: u64,
)
    requires
        st.wf(),
        st.holder is Some,
        st.holder->Some_0.owner@ == dacc.depositor@,
        st.holder->Some_0.mint@ == dacc.mint@,
        racc.redeemer@ == dacc.depositor@,
        racc.mint@ == dacc.mint@,
        deposit_spec(dacc, amount, st, ata_rent) is Ok,
    ensures
        ({
            let post = deposit_spec(dacc, amount, st, ata_rent)->Ok_0;
            let rst = RedeemState {
                redeemer: post.depositor,
                global_pda: post.global_pda,
                mint: post.mint,
                holder: post.holder->Some_0,
            };
            let rr = redeem_spec(racc, amount, rst);
            &&& rr is Ok
            &&& rr->Ok_0.holder.amount == st.holder->Some_0.amount
            &&& rr->Ok_0.redeemer.lamports == st.depositor.lamports
            &&& rr->Ok_0.global_pda.lamports == st.global_pda.lamports
            &&& rr->Ok_0.mint.supply == st.mint.supply
        }),
{
}

/// Shares move only in lockstep with escrowed value: a successful deposit
/// raises the vault authority's native balance and the share supply by the
/// same amount, so their difference — the vault's own rent-exempt funding —
/// is untouched.
pub proof fn lemma_deposit_preserves_backing(
    acc: DepositAccounts,
    amount: u64,
    st: DepositState,
    ata_rent: u64,
)
    requires
        st.wf(),
        deposit_spec(acc, amount, st, ata_rent) is Ok,
    ensures
        ({
            let post = deposit_spec(acc, amount, st, ata_rent)->Ok_0;
            post.global_pda.lamports - post.mint.supply == st.global_pda.lamports
                - st.mint.supply
        }),
{
}

/// The redeem counterpart of [`lemma_deposit_preserves_backing`]: a
/// successful redemption lowers the vault authority's native balance and
/// the share supply by the same amount.
pub proof fn lemma_redeem_preserves_backing(acc: RedeemAccounts, amount: u64, st: RedeemState)
    requires
        redeem_spec(acc, amount, st) is Ok,
    ensures
        ({
            let post = redeem_spec(acc, amount, st)->Ok_0;
            post.global_pda.lamports - post.mint.supply == st.global_pda.lamports
                - st.mint.supply
        }),
{
}

} // verus!
