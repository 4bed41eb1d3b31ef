pub mod category;
pub mod transaction;
pub mod user;
pub mod wallet;

pub use crate::request::category::{
    CategoryCreationRequest, CategoryCreationRequestView, CategoryUpdateRequest,
    CategoryUpdateRequestView,
};
pub use crate::request::transaction::{
    TransactionCreationRequest, TransactionCreationRequestView, TransactionUpdateRequest,
    TransactionUpdateRequestView,
};
pub use crate::request::user::{
    TokenRequest, TokenRequestView, UserCreationRequest, UserCreationRequestView,
    UserUpdateRequest, UserUpdateRequestView,
};
pub use crate::request::wallet::{
    WalletCreationRequest, WalletCreationRequestView, WalletUpdateRequest,
    WalletUpdateRequestView,
};
