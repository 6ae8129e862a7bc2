//! Escrow, shop, product, entity-token and commission stand-ins with fixed
//! catalogues: shops 1 and 2, products 1 to 4.
use vstd::prelude::*;
use crate::arith::clamp_u64;
use crate::kvmap::{get_or, KvMap};

verus! {

pub const BUYER: u64 = 1;
pub const BUYER2: u64 = 2;
pub const SELLER: u64 = 10;
pub const SELLER2: u64 = 20;
pub const SHOP_1: u64 = 1;
pub const SHOP_2: u64 = 2;

/// Why a stand-in refuses an operation.
#[derive(Clone, Copy, Debug, PartialEq, Eq, Structural)]
pub enum MockError {
    /// The payer or the escrow holds too little.
    FundsUnavailable,
}

/// Kind of a shop.
#[derive(Clone, Copy, Debug, PartialEq, Eq, Structural)]
pub enum ShopType {
    OnlineStore,
}

/// How a shop manages its members.
#[derive(Clone, Copy, Debug, PartialEq, Eq, Structural)]
pub enum MemberMode {
    Inherit,
}

/// A shop's own operating status.
#[derive(Clone, Copy, Debug, PartialEq, Eq, Structural)]
pub enum ShopOperatingStatus {
    Active,
}

/// A shop's status once its entity's status is taken into account.
#[derive(Clone, Copy, Debug, PartialEq, Eq, Structural)]
pub enum EffectiveShopStatus {
    Active,
}

/// Kind of a product.
#[derive(Clone, Copy, Debug, PartialEq, Eq, Structural)]
pub enum ProductCategory {
    Physical,
    Digital,
    Service,
    Other,
}

/// Escrow that records the amount locked under each id and a dispute flag.
pub struct MockEscrow {
    /// Amount held under each escrow id.
    pub balances: KvMap<u64, u64>,
    /// 1 while disputed, 0 once resolved.
    pub states: KvMap<u64, u8>,
}

impl MockEscrow {
    pub fn new() -> (e: MockEscrow)
        ensures
            e.balances@ == Map::<u64, u64>::empty(),
            e.states@ == Map::<u64, u8>::empty(),
    {
        MockEscrow { balances: KvMap::new(), states: KvMap::new() }
    }

    /// The escrow's account.
    pub fn escrow_account() -> (a: u64)
        ensures
            a == 999,
    {
        999
    }

    /// Locks `amount` of a payer holding `payer_free_balance` under `id`.
    pub fn lock_from(&mut self, payer_free_balance: u64, id: u64, amount: u64) -> (r: Result<(), MockError>)
        ensures
            payer_free_balance < amount ==> r == Err::<(), MockError>(MockError::FundsUnavailable) && *final(self) == *old(self),
            payer_free_balance >= amount ==> {
                &&& r is Ok
                &&& final(self).balances@ == old(self).balances@.insert(id, clamp_u64(get_or(old(self).balances@, id, 0u64) + amount))
                &&& final(self).states == old(self).states
            },
    {
        if payer_free_balance < amount {
            return Err(MockError::FundsUnavailable);
        }
        let cur = self.balances.get_or(&id, 0);
        self.balances.insert(id, cur.saturating_add(amount));
        Ok(())
    }

    /// Pays `amount` out of what `id` holds. An unknown id is first recorded as
    /// holding nothing.
    pub fn transfer_from_escrow(&mut self, id: u64, to: u64, amount: u64) -> (r: Result<(), MockError>)
        ensures
            ({
                let cur = get_or(old(self).balances@, id, 0u64);
                &&& final(self).states == old(self).states
                &&& if cur < amount {
                    &&& r == Err::<(), MockError>(MockError::FundsUnavailable)
                    &&& final(self).balances@ == old(self).balances@.insert(id, cur)
                } else {
                    &&& r is Ok
                    &&& final(self).balances@ == old(self).balances@.insert(id, (cur - amount) as u64)
                }
            }),
    {
        let cur = self.balances.get_or(&id, 0);
        if cur < amount {
            self.balances.insert(id, cur);
            return Err(MockError::FundsUnavailable);
        }
        self.balances.insert(id, cur - amount);
        Ok(())
    }

    /// Releases everything `id` holds to the seller.
    pub fn release_all(&mut self, id: u64, to: u64) -> (r: Result<(), MockError>)
        ensures
            r is Ok,
            final(self).balances@ == old(self).balances@.remove(id),
            final(self).states == old(self).states,
    {
        self.balances.remove(&id);
        Ok(())
    }

    /// Refunds everything `id` holds to the buyer.
    pub fn refund_all(&mut self, id: u64, to: u64) -> (r: Result<(), MockError>)
        ensures
            r is Ok,
            final(self).balances@ == old(self).balances@.remove(id),
            final(self).states == old(self).states,
    {
        self.balances.remove(&id);
        Ok(())
    }

    /// What `id` holds.
    pub fn amount_of(&self, id: u64) -> (a: u64)
        ensures
            a == get_or(self.balances@, id, 0u64),
    {
        self.balances.get_or(&id, 0)
    }

    /// Splits what `id` holds between seller and buyer; the stand-in does nothing.
    pub fn split_partial(&self, id: u64, release_to: u64, refund_to: u64, bps: u16) -> (r: Result<(), MockError>)
        ensures
            r is Ok,
    {
        Ok(())
    }

    /// Marks `id` as disputed.
    pub fn set_disputed(&mut self, id: u64) -> (r: Result<(), MockError>)
        ensures
            r is Ok,
            final(self).states@ == old(self).states@.insert(id, 1u8),
            final(self).balances == old(self).balances,
    {
        self.states.insert(id, 1);
        Ok(())
    }

    /// Marks the dispute of `id` as resolved.
    pub fn set_resolved(&mut self, id: u64) -> (r: Result<(), MockError>)
        ensures
            r is Ok,
            final(self).states@ == old(self).states@.insert(id, 0u8),
            final(self).balances == old(self).balances,
    {
        self.states.insert(id, 0);
        Ok(())
    }
}

/// Whether `shop_id` is one of the two known shops.
pub open spec fn known_shop(shop_id: u64) -> bool {
    shop_id == SHOP_1 || shop_id == SHOP_2
}

/// Shops 1 and 2, owned by the two sellers, both active.
pub struct MockShopProvider;

impl MockShopProvider {
    pub fn shop_exists(shop_id: u64) -> (r: bool)
        ensures
            r == known_shop(shop_id),
    {
        shop_id == SHOP_1 || shop_id == SHOP_2
    }

    pub fn is_shop_active(shop_id: u64) -> (r: bool)
        ensures
            r == known_shop(shop_id),
    {
        shop_id == SHOP_1 || shop_id == SHOP_2
    }

    /// Shop 1 belongs to entity 1, shop 2 to entity 2.
    pub fn shop_entity_id(shop_id: u64) -> (r: Option<u64>)
        ensures
            r == (if shop_id == SHOP_1 { Some(1u64) } else if shop_id == SHOP_2 { Some(2u64) } else { None::<u64> }),
    {
        if shop_id == SHOP_1 {
            Some(1)
        } else if shop_id == SHOP_2 {
            Some(2)
        } else {
            None
        }
    }

    pub fn shop_owner(shop_id: u64) -> (r: Option<u64>)
        ensures
            r == (if shop_id == SHOP_1 { Some(SELLER) } else if shop_id == SHOP_2 { Some(SELLER2) } else { None::<u64> }),
    {
        if shop_id == SHOP_1 {
            Some(SELLER)
        } else if shop_id == SHOP_2 {
            Some(SELLER2)
        } else {
            None
        }
    }

    /// The account of a shop: 2000 plus its id.
    pub fn shop_account(shop_id: u64) -> (r: u64)
        requires
            shop_id + 2000 <= u64::MAX,
        ensures
            r == 2000 + shop_id,
    {
        2000 + shop_id
    }

    pub fn shop_type(shop_id: u64) -> (r: Option<ShopType>)
        ensures
            r == Some(ShopType::OnlineStore),
    {
        Some(ShopType::OnlineStore)
    }

    pub fn shop_member_mode(shop_id: u64) -> (r: MemberMode)
        ensures
            r == MemberMode::Inherit,
    {
        MemberMode::Inherit
    }

    pub fn is_shop_manager(shop_id: u64, account: u64) -> (r: bool)
        ensures
            !r,
    {
        false
    }

    pub fn shop_own_status(shop_id: u64) -> (r: Option<ShopOperatingStatus>)
        ensures
            r == (if known_shop(shop_id) { Some(ShopOperatingStatus::Active) } else { None::<ShopOperatingStatus> }),
    {
        if shop_id == SHOP_1 || shop_id == SHOP_2 {
            Some(ShopOperatingStatus::Active)
        } else {
            None
        }
    }

    pub fn effective_status(shop_id: u64) -> (r: Option<EffectiveShopStatus>)
        ensures
            r == (if known_shop(shop_id) { Some(EffectiveShopStatus::Active) } else { None::<EffectiveShopStatus> }),
    {
        if shop_id == SHOP_1 || shop_id == SHOP_2 {
            Some(EffectiveShopStatus::Active)
        } else {
            None
        }
    }

    pub fn update_shop_stats(shop_id: u64, sales_amount: u128, order_count: u32) -> (r: Result<(), MockError>)
        ensures
            r is Ok,
    {
        Ok(())
    }

    pub fn update_shop_rating(shop_id: u64, rating: u8) -> (r: Result<(), MockError>)
        ensures
            r is Ok,
    {
        Ok(())
    }

    pub fn deduct_operating_fund(shop_id: u64, amount: u128) -> (r: Result<(), MockError>)
        ensures
            r is Ok,
    {
        Ok(())
    }

    pub fn operating_balance(shop_id: u64) -> (r: u128)
        ensures
            r == 10000,
    {
        10000
    }

    pub fn create_primary_shop(entity_id: u64, name: Vec<u8>, shop_type: ShopType, member_mode: MemberMode) -> (r: Result<u64, MockError>)
        ensures
            r == Ok::<u64, MockError>(1),
    {
        Ok(1)
    }

    pub fn is_primary_shop(shop_id: u64) -> (r: bool)
        ensures
            !r,
    {
        false
    }

    pub fn pause_shop(shop_id: u64) -> (r: Result<(), MockError>)
        ensures
            r is Ok,
    {
        Ok(())
    }

    pub fn resume_shop(shop_id: u64) -> (r: Result<(), MockError>)
        ensures
            r is Ok,
    {
        Ok(())
    }

    pub fn force_close_shop(shop_id: u64) -> (r: Result<(), MockError>)
        ensures
            r is Ok,
    {
        Ok(())
    }
}

/// Whether `product_id` is one of the four known products.
pub open spec fn known_product(product_id: u64) -> bool {
    1 <= product_id <= 4
}

/// Stock of a product before any override: 10, unlimited, 5 and 20.
pub open spec fn default_stock(product_id: u64) -> Option<u32> {
    if product_id == 1 {
        Some(10u32)
    } else if product_id == 3 {
        Some(5u32)
    } else if product_id == 4 {
        Some(20u32)
    } else {
        None
    }
}

/// Products 1 to 4: physical (shop 1, price 100), digital (shop 1, price 50,
/// unlimited stock), service (shop 1, price 200) and other (shop 2, price 150).
/// Stock can be overridden per product.
pub struct MockProductProvider {
    /// Stock overrides.
    pub stock: KvMap<u64, u32>,
}

/// Overrides the stock of a product.
pub fn set_product_stock(products: &mut MockProductProvider, product_id: u64, stock: u32)
    ensures
        final(products).stock@ == old(products).stock@.insert(product_id, stock),
{
    products.stock.insert(product_id, stock);
}

impl MockProductProvider {
    pub fn new() -> (p: MockProductProvider)
        ensures
            p.stock@ == Map::<u64, u32>::empty(),
    {
        MockProductProvider { stock: KvMap::new() }
    }

    pub fn product_exists(product_id: u64) -> (r: bool)
        ensures
            r == known_product(product_id),
    {
        product_id >= 1 && product_id <= 4
    }

    pub fn is_product_on_sale(product_id: u64) -> (r: bool)
        ensures
            r == known_product(product_id),
    {
        product_id >= 1 && product_id <= 4
    }

    pub fn product_shop_id(product_id: u64) -> (r: Option<u64>)
        ensures
            r == (if 1 <= product_id <= 3 { Some(SHOP_1) } else if product_id == 4 { Some(SHOP_2) } else { None::<u64> }),
    {
        if product_id >= 1 && product_id <= 3 {
            Some(SHOP_1)
        } else if product_id == 4 {
            Some(SHOP_2)
        } else {
            None
        }
    }

    pub fn product_price(product_id: u64) -> (r: Option<u64>)
        ensures
            r == (if product_id == 1 {
                Some(100u64)
            } else if product_id == 2 {
                Some(50u64)
            } else if product_id == 3 {
                Some(200u64)
            } else if product_id == 4 {
                Some(150u64)
            } else {
                None::<u64>
            }),
    {
        if product_id == 1 {
            Some(100)
        } else if product_id == 2 {
            Some(50)
        } else if product_id == 3 {
            Some(200)
        } else if product_id == 4 {
            Some(150)
        } else {
            None
        }
    }

    /// The overridden stock if there is one, else the catalogue's; `None`
    /// means unlimited or unknown.
    pub fn product_stock(&self, product_id: u64) -> (r: Option<u32>)
        ensures
            r == (if self.stock@.contains_key(product_id) { Some(self.stock@[product_id]) } else { default_stock(product_id) }),
    {
        match self.stock.get(&product_id) {
            Some(s) => Some(*s),
            None => if product_id == 1 {
                Some(10)
            } else if product_id == 3 {
                Some(5)
            } else if product_id == 4 {
                Some(20)
            } else {
                None
            },
        }
    }

    pub fn product_category(product_id: u64) -> (r: Option<ProductCategory>)
        ensures
            r == (if product_id == 1 {
                Some(ProductCategory::Physical)
            } else if product_id == 2 {
                Some(ProductCategory::Digital)
            } else if product_id == 3 {
                Some(ProductCategory::Service)
            } else if product_id == 4 {
                Some(ProductCategory::Other)
            } else {
                None::<ProductCategory>
            }),
    {
        if product_id == 1 {
            Some(ProductCategory::Physical)
        } else if product_id == 2 {
            Some(ProductCategory::Digital)
        } else if product_id == 3 {
            Some(ProductCategory::Service)
        } else if product_id == 4 {
            Some(ProductCategory::Other)
        } else {
            None
        }
    }

    pub fn deduct_stock(product_id: u64, quantity: u32) -> (r: Result<(), MockError>)
        ensures
            r is Ok,
    {
        Ok(())
    }

    pub fn restore_stock(product_id: u64, quantity: u32) -> (r: Result<(), MockError>)
        ensures
            r is Ok,
    {
        Ok(())
    }

    pub fn add_sold_count(product_id: u64, quantity: u32) -> (r: Result<(), MockError>)
        ensures
            r is Ok,
    {
        Ok(())
    }
}

/// Entity tokens that are never enabled: every balance and amount is zero.
pub struct MockEntityToken;

impl MockEntityToken {
    pub fn is_token_enabled(entity_id: u64) -> (r: bool)
        ensures
            !r,
    {
        false
    }

    pub fn token_balance(entity_id: u64, holder: u64) -> (r: u64)
        ensures
            r == 0,
    {
        0
    }

    pub fn reward_on_purchase(entity_id: u64, buyer: u64, amount: u64) -> (r: Result<u64, MockError>)
        ensures
            r == Ok::<u64, MockError>(0),
    {
        Ok(0)
    }

    pub fn redeem_for_discount(entity_id: u64, buyer: u64, tokens: u64) -> (r: Result<u64, MockError>)
        ensures
            r == Ok::<u64, MockError>(0),
    {
        Ok(0)
    }

    pub fn transfer(entity_id: u64, from: u64, to: u64, amount: u64) -> (r: Result<(), MockError>)
        ensures
            r is Ok,
    {
        Ok(())
    }

    pub fn reserve(entity_id: u64, who: u64, amount: u64) -> (r: Result<(), MockError>)
        ensures
            r is Ok,
    {
        Ok(())
    }

    /// What stays reserved: nothing.
    pub fn unreserve(entity_id: u64, who: u64, amount: u64) -> (r: u64)
        ensures
            r == 0,
    {
        0
    }

    pub fn repatriate_reserved(entity_id: u64, from: u64, to: u64, amount: u64) -> (r: Result<u64, MockError>)
        ensures
            r == Ok::<u64, MockError>(0),
    {
        Ok(0)
    }

    pub fn total_supply(entity_id: u64) -> (r: u64)
        ensures
            r == 0,
    {
        0
    }
}

/// Commission handler that records the orders it was told were cancelled.
pub struct MockCommissionHandler {
    /// Cancelled orders, in the order they were reported.
    pub cancelled: Vec<u64>,
}

/// The orders reported cancelled so far.
pub fn get_cancelled_orders(handler: &MockCommissionHandler) -> (r: Vec<u64>)
    ensures
        r@ == handler.cancelled@,
{
    let mut r: Vec<u64> = Vec::new();
    let mut i: usize = 0;
    while i < handler.cancelled.len()
        invariant
            0 <= i <= handler.cancelled@.len(),
            r@ == handler.cancelled@.take(i as int),
        decreases handler.cancelled@.len() - i,
    {
        r.push(handler.cancelled[i]);
        assert(handler.cancelled@.take(i + 1) =~= handler.cancelled@.take(i as int).push(handler.cancelled@[i as int]));
        i = i + 1;
    }
    assert(handler.cancelled@.take(handler.cancelled@.len() as int) =~= handler.cancelled@);
    r
}

impl MockCommissionHandler {
    pub fn new() -> (h: MockCommissionHandler)
        ensures
            h.cancelled@ == Seq::<u64>::empty(),
    {
        MockCommissionHandler { cancelled: Vec::new() }
    }

    pub fn on_order_completed(&self, shop_id: u64, order_id: u64, buyer: u64, amount: u64, platform_fee: u64) -> (r: Result<(), MockError>)
        ensures
            r is Ok,
    {
        Ok(())
    }

    /// Records a cancelled order.
    pub fn on_order_cancelled(&mut self, order_id: u64) -> (r: Result<(), MockError>)
        ensures
            r is Ok,
            final(self).cancelled@ == old(self).cancelled@.push(order_id),
    {
        self.cancelled.push(order_id);
        Ok(())
    }
}

} // verus!
