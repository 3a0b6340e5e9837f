[package]
name = "rs_graph"
version = "0.1.0"
edition = "2021"
