//! Resolution of executable deploy items: which code a deploy runs, under
//! which entry point, and with which arguments.

pub mod account;
pub mod do_nothing_stored_caller;
pub mod ee_598_regression;
pub mod error;
pub mod executable_deploy_item;
pub mod key;
pub mod payment_purse;
pub mod runtime_args;
pub mod uint;
