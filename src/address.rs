use vstd::prelude::*;

verus! {

/// A 32-byte account identity.
#[derive(Clone, Copy, Debug)]
pub struct Address {
    pub bytes: [u8; 32],
}

impl Address {
    pub open spec fn view(&self) -> Seq<u8> {
        self.bytes@
    }

    pub fn new(bytes: [u8; 32]) -> (r: Address)
        ensures
            r@ == bytes@,
    {
        Address { bytes }
    }

    /// Compares two identities byte by byte.
    pub fn same_as(&self, other: &Address) -> (r: bool)
        ensures
            r == (self@ == other@),
    {
        let mut i: usize = 0;
        while i < 32
            invariant
                0 <= i <= 32,
                self@.len() == 32,
                other@.len() == 32,
                forall|j: int| 0 <= j < i ==> self@[j] == other@[j],
            decreases 32 - i,
        {
            if self.bytes[i] != other.bytes[i] {
                return false;
            }
            i = i + 1;
        }
        assert(self@ =~= other@);
        true
    }

    /// The identity's bytes as a vector.
    pub fn to_vec(&self) -> (r: Vec<u8>)
        ensures
            r@ == self@,
    {
        let mut v: Vec<u8> = Vec::new();
        let mut i: usize = 0;
        while i < 32
            invariant
                0 <= i <= 32,
                self@.len() == 32,
                v@ == self@.subrange(0, i as int),
            decreases 32 - i,
        {
            v.push(self.bytes[i]);
            i = i + 1;
        }
        assert(v@ =~= self@);
        v
    }
}

impl PartialEq for Address {
    fn eq(&self, other: &Address) -> (r: bool) {
        self.same_as(other)
    }
}

impl vstd::std_specs::cmp::PartialEqSpecImpl for Address {
    open spec fn obeys_eq_spec() -> bool {
        true
    }

    open spec fn eq_spec(&self, other: &Address) -> bool {
        self@ == other@
    }
}

impl Eq for Address {
}

/// The program that owns every vault: `LUMPd26Acz4wqS8EBuoxPN2zhwCUF4npbkrqhLbM9AL`.
pub const PROGRAM_ID_BYTES: [u8; 32] = [
    4, 252, 246, 61, 43, 202, 8, 218, 202, 159, 70, 255, 254, 17, 111, 209,
    108, 77, 115, 71, 161, 51, 166, 126, 203, 230, 39, 201, 47, 223, 254, 93,
];

pub fn program_id() -> (r: Address)
    ensures
        r@ == PROGRAM_ID_BYTES@,
{
    Address { bytes: PROGRAM_ID_BYTES }
}

/// The name registry: `namesLPneVptA9Z5rqUDD9tMTWEJwofgaYwp8cawRkX`.
pub const NAME_SERVICE_PROGRAM_ID_BYTES: [u8; 32] = [
    11, 173, 81, 244, 19, 193, 243, 169, 148, 96, 217, 0, 216, 191, 46, 214,
    146, 126, 202, 52, 215, 183, 132, 43, 248, 16, 169, 115, 8, 45, 30, 220,
];

/// The records service: `HP3D4D1ZCmohQGFVms2SS4LCANgJyksBf5s1F77FuFjZ`.
pub const SNS_RECORDS_PROGRAM_ID_BYTES: [u8; 32] = [
    243, 96, 67, 217, 255, 96, 154, 213, 150, 32, 207, 123, 211, 15, 67, 83,
    236, 6, 129, 182, 188, 147, 95, 211, 149, 236, 37, 100, 157, 16, 118, 220,
];

/// The system program: thirty-two zero bytes.
pub const SYSTEM_PROGRAM_ID_BYTES: [u8; 32] = [
    0, 0, 0, 0, 0, 0, 0, 0, 0, 0, 0, 0, 0, 0, 0, 0,
    0, 0, 0, 0, 0, 0, 0, 0, 0, 0, 0, 0, 0, 0, 0, 0,
];

/// Class byte of version-two records.
pub const RECORD_V2_CLASS: u8 = 2;

/// Hash of the registry prefix and the resolution record name, the first
/// seed of a resolution record's address.
pub const SOL_RECORD_V2_HASHED_NAME: [u8; 32] = [
    0x30, 0xec, 0xde, 0x95, 0xb6, 0x4e, 0xf5, 0x47, 0xd8, 0x9f, 0xde, 0x39, 0x87, 0x03, 0x9f, 0x70,
    0xb5, 0x39, 0x37, 0xa8, 0xff, 0xbc, 0xc1, 0x0a, 0x28, 0x5b, 0x82, 0x6f, 0xdf, 0xa0, 0x76, 0xbd,
];

pub fn name_service_program_id() -> (r: Address)
    ensures
        r@ == NAME_SERVICE_PROGRAM_ID_BYTES@,
        r == (Address { bytes: NAME_SERVICE_PROGRAM_ID_BYTES }),
{
    Address { bytes: NAME_SERVICE_PROGRAM_ID_BYTES }
}

pub fn sns_records_program_id() -> (r: Address)
    ensures
        r@ == SNS_RECORDS_PROGRAM_ID_BYTES@,
        r == (Address { bytes: SNS_RECORDS_PROGRAM_ID_BYTES }),
{
    Address { bytes: SNS_RECORDS_PROGRAM_ID_BYTES }
}

pub fn system_program_id() -> (r: Address)
    ensures
        r@ == SYSTEM_PROGRAM_ID_BYTES@,
        r == (Address { bytes: SYSTEM_PROGRAM_ID_BYTES }),
{
    Address { bytes: SYSTEM_PROGRAM_ID_BYTES }
}

} // verus!
