use vstd::prelude::*;

verus! {

/// Direction of an endpoint, as seen from the host.
#[derive(Debug, Clone, Copy, PartialEq, Eq, Structural)]
pub enum Direction {
    In,
    Out,
}

/// Transfer type of an endpoint.
#[derive(Debug, Clone, Copy, PartialEq, Eq, Structural)]
pub enum TransferKind {
    Control,
    Isochronous,
    Bulk,
    Interrupt,
}

/// One endpoint descriptor, with the configuration and interface setting it
/// belongs to.
#[derive(Debug, Clone, Copy, PartialEq, Eq, Structural)]
pub struct EndpointCandidate {
    pub config: u8,
    pub iface: u8,
    pub setting: u8,
    pub address: u8,
    pub direction: Direction,
    pub transfer_kind: TransferKind,
}

/// The transfer path that the loop owns for the whole run.
#[derive(Debug, Clone, Copy, PartialEq, Eq, Structural)]
pub struct Endpoint {
    pub config: u8,
    pub iface: u8,
    pub setting: u8,
    pub address: u8,
}

/// Vendor and product identifiers of a device.
#[derive(Debug, Clone, Copy, PartialEq, Eq, Structural)]
pub struct DeviceId {
    pub vendor_id: u16,
    pub product_id: u16,
}

pub open spec fn endpoint_matches(c: EndpointCandidate, direction: Direction, kind: TransferKind) -> bool {
    c.direction == direction && c.transfer_kind == kind
}

pub open spec fn endpoint_of(c: EndpointCandidate) -> Endpoint {
    Endpoint { config: c.config, iface: c.iface, setting: c.setting, address: c.address }
}

/// `i` is the first position whose element satisfies `p`.
pub open spec fn first_match<T>(s: Seq<T>, i: int, p: spec_fn(T) -> bool) -> bool {
    &&& 0 <= i < s.len()
    &&& p(s[i])
    &&& forall|j: int| 0 <= j < i ==> !p(#[trigger] s[j])
}

/// The first endpoint, in descriptor order over all configurations,
/// interfaces and settings, with the wanted direction and transfer type.
pub fn find_endpoint(candidates: &Vec<EndpointCandidate>, direction: Direction, kind: TransferKind) -> (r: Option<Endpoint>)
    ensures
        r is None <==> (forall|i: int| 0 <= i < candidates@.len() ==> !endpoint_matches(#[trigger] candidates@[i], direction, kind)),
        r is Some ==> exists|i: int| first_match(candidates@, i, |c: EndpointCandidate| endpoint_matches(c, direction, kind))
            && r == Some(endpoint_of(#[trigger] candidates@[i])),
{
    let mut i: usize = 0;
    while i < candidates.len()
        invariant
            i <= candidates@.len(),
            forall|j: int| 0 <= j < i ==> !endpoint_matches(#[trigger] candidates@[j], direction, kind),
        decreases candidates@.len() - i,
    {
        let c = candidates[i];
        if c.direction == direction && c.transfer_kind == kind {
            let e = Endpoint { config: c.config, iface: c.iface, setting: c.setting, address: c.address };
            assert(first_match(candidates@, i as int, |c: EndpointCandidate| endpoint_matches(c, direction, kind)));
            return Some(e);
        }
        i = i + 1;
    }
    None
}

/// Position of the first device with the given identifiers; devices whose
/// descriptor could not be read (`None`) never match.
pub fn find_device(devices: &Vec<Option<DeviceId>>, vendor_id: u16, product_id: u16) -> (r: Option<usize>)
    ensures
        r is None <==> (forall|i: int| 0 <= i < devices@.len() ==> #[trigger] devices@[i] != Some(DeviceId { vendor_id, product_id })),
        r is Some ==> first_match(devices@, r->Some_0 as int, |d: Option<DeviceId>| d == Some(DeviceId { vendor_id, product_id })),
{
    let mut i: usize = 0;
    while i < devices.len()
        invariant
            i <= devices@.len(),
            forall|j: int| 0 <= j < i ==> #[trigger] devices@[j] != Some(DeviceId { vendor_id, product_id }),
        decreases devices@.len() - i,
    {
        match devices[i] {
            Some(d) => {
                if d.vendor_id == vendor_id && d.product_id == product_id {
                    return Some(i);
                }
            },
            None => {},
        }
        i = i + 1;
    }
    None
}

} // verus!
