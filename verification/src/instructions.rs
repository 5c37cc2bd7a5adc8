//! The operations on an investment, gathered in one place.

pub use crate::estimate::{
    estimate_profit_share, estimate_refund_share, try_estimate_profit_share,
};
pub use crate::execute::{
    execute_profit_share, execute_refund_share, plan_profit_share, plan_refund_share,
};
pub use crate::ledger::{
    add_investment_record, check_rebinding, revoked_investment_record,
    update_investment_record_wallets,
};
pub use crate::lifecycle::{
    completed_investment_info, deactivate_investment_info, initialize_investment_info,
    patch_execute_whitelist, patch_update_whitelist, patch_withdraw_whitelist,
    update_investment_info,
};
pub use crate::transfer::transfer_token_checked;
pub use crate::vault::{deposit_sol_to_vault, deposit_token_to_vault, withdraw_from_vault};
