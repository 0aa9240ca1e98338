//! Copies of values and maps. A copy shares the buffers of what it copies.
use crate::map::RedisMap;
use crate::value::{RedisValue, ValueView};
use vstd::prelude::*;

verus! {

impl Clone for RedisValue {
    /// A value with the same content.
    fn clone(&self) -> (r: RedisValue)
        ensures
            r@ == self@,
    {
        self.duplicate()
    }
}

impl Clone for RedisMap {
    /// A map with the same entries.
    fn clone(&self) -> (r: RedisMap)
        ensures
            r@ == self@,
    {
        self.duplicate()
    }
}

impl RedisValue {
    /// A value with the same content.
    pub fn duplicate(&self) -> (r: RedisValue)
        ensures
            r@ == self@,
        decreases self,
    {
        match self {
            RedisValue::Boolean(b) => RedisValue::Boolean(*b),
            RedisValue::Integer(i) => RedisValue::Integer(*i),
            RedisValue::Double(d) => RedisValue::Double(d.clone()),
            RedisValue::String(s) => RedisValue::String(crate::buffer::str_clone(s)),
            RedisValue::Bytes(b) => RedisValue::Bytes(b.clone()),
            RedisValue::Null => RedisValue::Null,
            RedisValue::Queued => RedisValue::Queued,
            RedisValue::Dict(m) => RedisValue::Dict(m.duplicate()),
            RedisValue::Array(items) => {
                let ghost views = self@->Array_0;
                let n: usize = items.len();
                let mut copy: Vec<RedisValue> = Vec::new();
                let mut i: usize = 0;
                while i < n
                    invariant
                        i <= n,
                        n == items.len(),
                        self == RedisValue::Array(*items),
                        self@ == ValueView::Array(views),
                        views.len() == n,
                        forall|j: int| 0 <= j < n ==> views[j] == (#[trigger] items[j])@,
                        copy.len() == i,
                        forall|j: int| 0 <= j < i ==> (#[trigger] copy[j])@ == views[j],
                    decreases n - i,
                {
                    copy.push(items[i].duplicate());
                    i += 1;
                }
                let r = RedisValue::Array(copy);
                assert(r@->Array_0 =~= views);
                r
            },
        }
    }
}

} // verus!
