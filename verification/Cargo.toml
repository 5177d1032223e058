[package]
name = "matcher_predicate"
version = "0.1.0"
edition = "2021"
publish = false

[dependencies]
googletest = "*"
predicates = "*"
