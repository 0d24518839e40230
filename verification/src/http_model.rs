//! Plain-value models of the request/response data the middleware reads:
//! header lists of raw bytes, and the head/body split of a response.

use vstd::prelude::*;

verus! {

/// One header: a name and a value, both raw bytes.  Names are expected in
/// their normalized (lower-case) wire form.
#[derive(Debug, Clone)]
pub struct HeaderEntry {
    pub name: Vec<u8>,
    pub value: Vec<u8>,
}

/// An ordered list of headers.
#[derive(Debug, Clone)]
pub struct HeaderList {
    pub entries: Vec<HeaderEntry>,
}

/// First-match lookup of a name in a header sequence.
pub open spec fn lookup(entries: Seq<(Seq<u8>, Seq<u8>)>, name: Seq<u8>) -> Option<Seq<u8>>
    decreases entries.len(),
{
    if entries.len() == 0 {
        None
    } else if entries[0].0 == name {
        Some(entries[0].1)
    } else {
        lookup(entries.drop_first(), name)
    }
}

impl HeaderList {
    /// The abstract contents: name/value byte sequences in order.
    pub open spec fn view_entries(&self) -> Seq<(Seq<u8>, Seq<u8>)> {
        self.entries@.map_values(|e: HeaderEntry| (e.name@, e.value@))
    }

    pub fn new() -> (r: HeaderList)
        ensures
            r.view_entries() == Seq::<(Seq<u8>, Seq<u8>)>::empty(),
    {
        let r = HeaderList { entries: Vec::new() };
        proof {
            assert(r.view_entries() =~= Seq::<(Seq<u8>, Seq<u8>)>::empty());
        }
        r
    }

    /// Append a header at the end of the list.
    pub fn push(&mut self, name: Vec<u8>, value: Vec<u8>)
        ensures
            final(self).view_entries() == old(self).view_entries().push((name@, value@)),
    {
        let ghost before = self.view_entries();
        self.entries.push(HeaderEntry { name, value });
        proof {
            assert(self.view_entries() =~= before.push((name@, value@)));
        }
    }

    /// The value of the first header with the given name, if any.
    pub fn get(&self, name: &Vec<u8>) -> (r: Option<&Vec<u8>>)
        ensures
            match r {
                Some(v) => lookup(self.view_entries(), name@) == Some(v@),
                None => lookup(self.view_entries(), name@) is None,
            },
    {
        let n = self.entries.len();
        let mut i: usize = 0;
        proof {
            assert(self.view_entries().skip(0) =~= self.view_entries());
        }
        while i < n
            invariant
                n == self.entries.len(),
                i <= n,
                lookup(self.view_entries().skip(i as int), name@) == lookup(
                    self.view_entries(),
                    name@,
                ),
            decreases n - i,
        {
            proof {
                assert(self.view_entries().skip(i as int)[0] == self.view_entries()[i as int]);
            }
            if bytes_eq(&self.entries[i].name, name) {
                return Some(&self.entries[i].value);
            }
            proof {
                assert(self.view_entries().skip(i as int).drop_first() =~= self.view_entries().skip(
                    i as int + 1,
                ));
            }
            i += 1;
        }
        proof {
            assert(self.view_entries().skip(n as int) =~= Seq::<(Seq<u8>, Seq<u8>)>::empty());
        }
        None
    }
}

/// Byte-for-byte equality of two byte vectors.
pub fn bytes_eq(a: &Vec<u8>, b: &Vec<u8>) -> (r: bool)
    ensures
        r == (a@ == b@),
{
    if a.len() != b.len() {
        proof {
            assert(a@ != b@);
        }
        return false;
    }
    let n = a.len();
    let mut i: usize = 0;
    while i < n
        invariant
            n == a.len() == b.len(),
            i <= n,
            forall|j: int| 0 <= j < i ==> a@[j] == b@[j],
        decreases n - i,
    {
        if a[i] != b[i] {
            return false;
        }
        i += 1;
    }
    proof {
        assert(a@ =~= b@);
    }
    true
}

/// Copy a byte vector.
pub fn copy_bytes(v: &Vec<u8>) -> (r: Vec<u8>)
    ensures
        r@ == v@,
{
    let n = v.len();
    let mut r: Vec<u8> = Vec::new();
    let mut i: usize = 0;
    while i < n
        invariant
            n == v.len(),
            i <= n,
            r@ =~= v@.take(i as int),
        decreases n - i,
    {
        r.push(v[i]);
        i += 1;
        proof {
            assert(r@ =~= v@.take(i as int));
        }
    }
    proof {
        assert(v@.take(n as int) =~= v@);
    }
    r
}

/// The status and headers of a response, without its body.
#[derive(Debug, Clone)]
pub struct ResponseHead {
    pub status: u16,
    pub headers: HeaderList,
}

/// The method, target and headers of a request, without its body.
#[derive(Debug, Clone)]
pub struct RequestHead {
    pub method: Vec<u8>,
    pub uri: Vec<u8>,
    pub headers: HeaderList,
}

/// A response: head plus a body of any representation.
#[derive(Debug)]
pub struct RpcResponse<B> {
    pub head: ResponseHead,
    pub body: B,
}

/// What one poll of the inner handler's future reported.
pub enum InnerPoll<B, E> {
    /// The inner future is not ready yet.
    Suspended,
    /// The inner future resolved, to a response or to its own error.
    Finished(Result<RpcResponse<B>, E>),
}

} // verus!
