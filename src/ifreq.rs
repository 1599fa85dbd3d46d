use vstd::prelude::*;
use vstd::string::StringSliceAdditionalSpecFns;

verus! {

/// Size of an interface-name field, terminator included.
pub const IF_NAMESIZE: usize = 16;

/// The fixed-size name/parameter record of an interface-configuration request.
#[derive(Debug)]
pub struct IfReq {
    pub ifr_name: Vec<u8>,
    /// The interface index or MTU, depending on the request.
    pub ifr_data: i32,
}

/// `name` followed by zero bytes up to the field size.
pub open spec fn padded_name(name: Seq<u8>) -> Seq<u8> {
    name + Seq::new((IF_NAMESIZE - name.len()) as nat, |i: int| 0u8)
}

/// Builds the record for the interface called `name`.
pub fn ifreq_for(name: &str) -> (r: IfReq)
    requires
        name.spec_bytes().len() <= IF_NAMESIZE,
    ensures
        r.ifr_name@ == padded_name(name.spec_bytes()),
        r.ifr_data == 0,
{
    let bytes = name.as_bytes();
    let mut ifr_name: Vec<u8> = vec![0u8; IF_NAMESIZE];
    let mut i: usize = 0;
    while i < bytes.len()
        invariant
            bytes@ == name.spec_bytes(),
            bytes@.len() <= IF_NAMESIZE,
            i <= bytes@.len(),
            ifr_name@.len() == IF_NAMESIZE,
            forall|j: int| 0 <= j < i ==> ifr_name@[j] == bytes@[j],
            forall|j: int| i <= j < IF_NAMESIZE ==> ifr_name@[j] == 0u8,
        decreases bytes@.len() - i,
    {
        ifr_name.set(i, bytes[i]);
        i = i + 1;
    }
    assert(ifr_name@ =~= padded_name(name.spec_bytes()));
    IfReq { ifr_name, ifr_data: 0 }
}

} // verus!
