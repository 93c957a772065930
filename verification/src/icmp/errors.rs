use vstd::prelude::*;

verus! {

/// Fallo al escribir un mensaje ICMP en su búfer.
#[derive(Debug)]
pub enum PaqueteCreacionError {
    IoError { error: std::io::Error },
}

} // verus!
