use vstd::prelude::*;

verus! {

/// What the device list needs to know of one attached USB device.
#[derive(Clone, Debug)]
pub struct UsbDeviceSummary {
    pub class: u8,
    /// The product string, when the device reports one.
    pub product: Option<String>,
    /// Whether the first interface carries a name of its own; `None` when the
    /// device has no interface.
    pub first_interface_named: Option<bool>,
}

/// `p` occurs in `s` as a contiguous run.
pub open spec fn occurs_in(p: Seq<char>, s: Seq<char>) -> bool {
    exists|i: int| 0 <= i && i + p.len() <= s.len() && #[trigger] s.subrange(i, i + p.len()) == p
}

/// Relies on `str::contains` with a `&str` pattern: whether `p` occurs in `s`.
#[verifier::external_body]
fn contains_text(s: &str, p: &str) -> (r: bool)
    ensures
        r == occurs_in(p@, s@),
{
    s.contains(p)
}

/// A removable storage device: class defined per interface, a product
/// string, a first interface without a name of its own, and not a
/// fingerprint reader (which otherwise passes the other tests).
pub open spec fn is_storage_candidate(d: UsbDeviceSummary) -> bool {
    &&& d.class == 0
    &&& d.product is Some
    &&& d.first_interface_named == Some(false)
    &&& !occurs_in("Fingerprint"@, d.product.unwrap()@)
}

/// The product names of the storage candidates among `ds`, in order.
pub open spec fn storage_names(ds: Seq<UsbDeviceSummary>) -> Seq<Seq<char>>
    decreases ds.len(),
{
    if ds.len() == 0 {
        Seq::empty()
    } else {
        let rest = storage_names(ds.drop_last());
        if is_storage_candidate(ds.last()) {
            rest.push(ds.last().product.unwrap()@)
        } else {
            rest
        }
    }
}

pub open spec fn names_view(v: Seq<String>) -> Seq<Seq<char>> {
    v.map_values(|s: String| s@)
}

pub fn is_storage_device(d: &UsbDeviceSummary) -> (r: bool)
    ensures
        r == is_storage_candidate(*d),
{
    if d.class != 0 {
        return false;
    }
    match (&d.product, d.first_interface_named) {
        (Some(name), Some(false)) => !contains_text(name.as_str(), "Fingerprint"),
        _ => false,
    }
}

/// The names to offer as destinations: the product string of each storage
/// candidate, in the order the devices were listed.
pub fn storage_device_names(devices: &Vec<UsbDeviceSummary>) -> (r: Vec<String>)
    ensures
        names_view(r@) == storage_names(devices@),
{
    let mut names: Vec<String> = Vec::new();
    let mut i: usize = 0;
    while i < devices.len()
        invariant
            i <= devices@.len(),
            names_view(names@) == storage_names(devices@.take(i as int)),
        decreases devices@.len() - i,
    {
        let d = &devices[i];
        assert(devices@.take(i + 1).drop_last() =~= devices@.take(i as int));
        if is_storage_device(d) {
            match &d.product {
                Some(name) => {
                    names.push(name.clone());
                    assert(names_view(names@) =~= storage_names(devices@.take(i + 1)));
                },
                None => {},
            }
        }
        i = i + 1;
    }
    assert(devices@.take(devices@.len() as int) =~= devices@);
    names
}

} // verus!
