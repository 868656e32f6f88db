//! Authentication, session lifecycle and request validation for an
//! administrative API, with contracts proved by Verus.
//!
//! A login holds a username and a password against the stored Argon2id hash
//! (`authentication`, `password`, `users`; `phc` says which hash strings
//! are handed to Argon2 at all), puts a session on record
//! (`ledger`) and signs a token for it (`token`). Every later request is
//! authenticated by its bearer token and by the ledger (`session`), so that
//! a logout takes effect at once. `routes` puts these together for login,
//! logout and change of password; `clock` does so at the second that the
//! machine's clock shows. `errors` says which status and text each failure
//! surfaces as; a failure of the server shows one fixed text and keeps
//! what went wrong inside for the log.
//!
//! `customer`, `product` and `order_item` validate what the requests for
//! these records carry, on top of `text`, `phone`, `ids` and `listing`.

pub mod authentication;
pub mod clock;
pub mod customer;
pub mod errors;
pub mod ids;
pub mod ledger;
pub mod listing;
pub mod order_item;
pub mod password;
pub mod phc;
pub mod phone;
pub mod product;
pub mod routes;
pub mod session;
pub mod text;
pub mod token;
pub mod users;
