pub mod checkout;
