//! Payment amounts for Canadian-style mortgages: rates quoted with
//! semi-annual compounding, payments computed on a monthly basis.

pub mod amortization;
pub mod compounding;
pub mod decimal;
pub mod error;
pub mod mortgage;
