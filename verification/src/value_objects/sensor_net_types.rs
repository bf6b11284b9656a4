//! Transport selection: which kind of sensor network a session runs over,
//! and the parameters each kind is initialized with.
//!
//! The serial parameters are held as plain values here; the layer that opens
//! the port converts them to its serial library's own types.

use vstd::prelude::*;

verus! {

/// The transports a session can run over.
#[derive(Debug, PartialEq, Eq, Structural, Clone, Copy)]
pub enum SensorNetType {
    UDP,
    Serial2,
}

/// Parity of a serial link.
#[derive(Debug, PartialEq, Eq, Structural, Clone, Copy)]
pub enum Parity {
    Disabled,
    Odd,
    Even,
}

/// Data bits per character on a serial link.
#[derive(Debug, PartialEq, Eq, Structural, Clone, Copy)]
pub enum CharSize {
    Bits5,
    Bits6,
    Bits7,
    Bits8,
}

/// Flow control of a serial link.
#[derive(Debug, PartialEq, Eq, Structural, Clone, Copy)]
pub enum FlowControl {
    Disabled,
    XonXoff,
    RtsCts,
}

/// Initialization parameters, one variant per transport kind.
pub enum SensorNetInitArgs {
    UDP { source_address: String, destination_address: String, timeout: u64 },
    Serial2 {
        port_name: String,
        baud_rate: u32,
        parity: Parity,
        data_bits: CharSize,
        flow_control: FlowControl,
        timeout: u64,
    },
}

/// Element-wise byte equality.
fn bytes_eq(a: &[u8], b: &[u8]) -> (r: bool)
    ensures
        r == (a@ == b@),
{
    if a.len() != b.len() {
        return false;
    }
    let mut i: usize = 0;
    while i < a.len()
        invariant
            i <= a@.len(),
            a@.len() == b@.len(),
            forall|j: int| 0 <= j < i ==> a@[j] == b@[j],
        decreases a@.len() - i,
    {
        if a[i] != b[i] {
            return false;
        }
        i = i + 1;
    }
    proof {
        assert(a@ =~= b@);
    }
    true
}

/// String equality, decided on the UTF-8 bytes.
fn str_eq(a: &str, b: &str) -> (r: bool)
    ensures
        r == (a@ == b@),
{
    let r = bytes_eq(a.as_bytes(), b.as_bytes());
    proof {
        vstd::utf8::encode_utf8_decode_utf8(a@);
        vstd::utf8::encode_utf8_decode_utf8(b@);
    }
    r
}

impl SensorNetType {
    /// Reads a transport kind from its name; any other name is rejected.
    pub fn from_str(s: &str) -> (r: Result<SensorNetType, String>)
        ensures
            s@ == "UDP"@ <==> r == Ok::<SensorNetType, String>(SensorNetType::UDP),
            s@ == "Serial2"@ <==> r == Ok::<SensorNetType, String>(SensorNetType::Serial2),
            r is Err <==> (s@ != "UDP"@ && s@ != "Serial2"@),
    {
        proof {
            reveal_strlit("UDP");
            reveal_strlit("Serial2");
            assert("UDP"@.len() == 3);
            assert("Serial2"@.len() == 7);
            assert("UDP"@ != "Serial2"@);
        }
        if str_eq(s, "UDP") {
            Ok(SensorNetType::UDP)
        } else if str_eq(s, "Serial2") {
            Ok(SensorNetType::Serial2)
        } else {
            Err("Invalid sensor network type".to_owned())
        }
    }

    /// The name of this transport kind.
    pub fn as_str(&self) -> (r: &str)
        ensures
            self == SensorNetType::UDP ==> r@ == "UDP"@,
            self == SensorNetType::Serial2 ==> r@ == "Serial2"@,
    {
        match self {
            SensorNetType::UDP => "UDP",
            SensorNetType::Serial2 => "Serial2",
        }
    }
}

} // verus!
