pub mod add_message;
pub mod cancel;
pub mod check_in;
pub mod deposit;
pub mod withdraw;
pub mod update_beneficiaries;
pub mod update_interval;
pub mod trigger;
pub mod initialize;
