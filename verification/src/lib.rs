//! Verified transformation logic of the Dracula ETL tasks.
pub mod calendar;
pub mod text;
pub mod partitions;
pub mod rows;
pub mod events;
pub mod streaming;
pub mod pages;
pub mod providers;
pub mod requests;
pub mod refs_users;
pub mod index;
pub mod users;
pub mod orders;
pub mod ratings;
pub mod money;
pub mod proposals;
pub mod invoices;
pub mod purchase_orders;
pub mod milestones;
pub mod catalog;
