//! Listing helpers around the parsing engine: picking the bulletins of a
//! product listing that are newer than the last one seen, and the structured
//! form of a decoded tornado product.
use vstd::prelude::*;

verus! {

use crate::domain::Coordinates;
use crate::domain::ListProduct;
use crate::domain::ProductsResult;
use crate::time::iso_ticks;
use crate::time::ts_to_ticks;

/// The structured fields of a decoded tornado warning, on their own.
#[derive(Debug, Clone, PartialEq)]
pub struct TornadoProduct {
    pub is_pds: bool,
    pub is_observed: bool,
    pub is_tornado_emergency: bool,
    pub source: String,
    pub description: String,
    pub polygon: Vec<Coordinates>,
    pub location: Coordinates,
    pub time: String,
    pub motion_deg: u16,
    pub motion_kt: u16,
}

/// The prefix of a newest-first listing that is strictly newer than the
/// given ticks: stop at the first entry at or before them, and pass over an
/// entry whose timestamp does not decode rather than lose what follows it.
pub open spec fn new_products_spec(products: Seq<ListProduct>, last_ts: u64) -> Seq<ListProduct>
    decreases products.len(),
{
    if products.len() == 0 {
        Seq::<ListProduct>::empty()
    } else {
        match iso_ticks(products[0].issuance_time@) {
            Some(ticks) => if ticks <= last_ts {
                Seq::<ListProduct>::empty()
            } else {
                seq![products[0]] + new_products_spec(products.skip(1), last_ts)
            },
            None => new_products_spec(products.skip(1), last_ts),
        }
    }
}

/// Returns the products of a listing newer than the latest seen.
pub fn get_new_products(last_ts: u64, products_result: ProductsResult) -> (r: Vec<ListProduct>)
    ensures
        r@ == new_products_spec(products_result.products@, last_ts),
{
    let ghost orig = products_result.products@;
    let ProductsResult { _context: _, products: mut products } = products_result;
    assert(products@ == orig);
    let mut out: Vec<ListProduct> = Vec::new();
    proof {
        assert(out@ + new_products_spec(products@, last_ts) =~= new_products_spec(orig, last_ts));
    }
    while products.len() > 0
        invariant
            orig == products_result.products@,
            new_products_spec(orig, last_ts) == out@ + new_products_spec(products@, last_ts),
        decreases products.len(),
    {
        let ghost before = products@;
        let p = products.remove(0);
        proof {
            assert(products@ =~= before.skip(1));
            assert(p == before[0]);
        }
        match ts_to_ticks(p.issuance_time.as_str()) {
            Ok(ticks) => {
                if ticks <= last_ts {
                    proof {
                        assert(new_products_spec(orig, last_ts) == out@ + new_products_spec(
                            before,
                            last_ts,
                        ));
                        assert(new_products_spec(before, last_ts) =~= Seq::<
                            ListProduct,
                        >::empty());
                        assert(out@ + Seq::<ListProduct>::empty() =~= out@);
                        assert(out@ =~= new_products_spec(orig, last_ts));
                    }
                    return out;
                }
                out.push(p);
                proof {
                    assert(new_products_spec(before, last_ts) =~= seq![before[0]]
                        + new_products_spec(before.skip(1), last_ts));
                    assert(out@ + new_products_spec(products@, last_ts) =~= new_products_spec(
                        orig,
                        last_ts,
                    ));
                }
            },
            Err(_) => {
                proof {
                    assert(new_products_spec(before, last_ts) == new_products_spec(
                        before.skip(1),
                        last_ts,
                    ));
                }
            },
        }
    }
    proof {
        assert(new_products_spec(products@, last_ts) =~= Seq::<ListProduct>::empty());
        assert(out@ =~= new_products_spec(orig, last_ts));
    }
    out
}

} // verus!

