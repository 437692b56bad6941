//! Small models of classic design patterns: each module holds the data and the decisions of one
//! pattern; printing is left to the caller, which receives the text to print.
pub mod adapter;
pub mod bridge;
pub mod builder;
pub mod chain;
pub mod command;
pub mod decorator;
pub mod facade;
pub mod factory;
pub mod filter;
pub mod interpreter;
pub mod iter;
pub mod mediator;
pub mod memento;
pub mod observer;
pub mod proxy;
pub mod singleton;
pub mod strategy;
pub mod template;
pub mod visitor;
