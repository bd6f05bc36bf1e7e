//! Offers: the raw record as the feed supplies it, and its normalization
//! into the canonical record.

use vstd::prelude::*;
use crate::asset::{
    asset_of, parse_raw_asset, raw_asset_of, read_raw_asset, Asset, AssetView, RawAsset,
    RawAssetView,
};
use crate::error::{NormalizationError, NormalizationErrorView};
use crate::json::string_members;
use crate::number::{
    decimal_u64, is_digit, lemma_non_digit_writes_no_number, narrow, narrowed, parse_u64,
};

verus! {

/// A point in time: seconds since the Unix epoch in UTC, and the
/// nanoseconds past that second.
#[derive(Debug, Clone, Copy, PartialEq, Eq, Structural)]
pub struct Timestamp {
    pub seconds: i64,
    pub nanos: u32,
}

/// The exact price of an offer as the feed states it: numerator over
/// denominator.
#[derive(Debug, Clone, Copy, PartialEq, Eq, Structural)]
pub struct PriceRatio {
    pub n: i64,
    pub d: i64,
}

/// One offer record of the feed, its two assets still untyped JSON.
#[derive(Debug)]
pub struct HorizonOffer {
    pub id: String,
    pub seller: String,
    pub selling: serde_json::Value,
    pub buying: serde_json::Value,
    pub amount: String,
    pub price_r: Option<PriceRatio>,
    pub price: String,
    pub last_modified_ledger: u32,
}

/// One offer record of the feed with the members of its two assets read
/// out.
#[derive(Debug, Clone, PartialEq, Eq)]
pub struct RawOffer {
    pub id: String,
    pub seller: String,
    pub selling: RawAsset,
    pub buying: RawAsset,
    pub amount: String,
    pub price_r: Option<PriceRatio>,
    pub price: String,
    pub last_modified_ledger: u32,
}

/// The mathematical value of a raw offer record.
pub struct RawOfferView {
    pub id: Seq<char>,
    pub seller: Seq<char>,
    pub selling: RawAssetView,
    pub buying: RawAssetView,
    pub amount: Seq<char>,
    pub price_r: Option<PriceRatio>,
    pub price: Seq<char>,
    pub last_modified_ledger: u32,
}

impl View for RawOffer {
    type V = RawOfferView;

    open spec fn view(&self) -> RawOfferView {
        RawOfferView {
            id: self.id@,
            seller: self.seller@,
            selling: self.selling@,
            buying: self.buying@,
            amount: self.amount@,
            price_r: self.price_r,
            price: self.price@,
            last_modified_ledger: self.last_modified_ledger,
        }
    }
}

impl View for HorizonOffer {
    type V = RawOfferView;

    open spec fn view(&self) -> RawOfferView {
        RawOfferView {
            id: self.id@,
            seller: self.seller@,
            selling: raw_asset_of(string_members(self.selling)),
            buying: raw_asset_of(string_members(self.buying)),
            amount: self.amount@,
            price_r: self.price_r,
            price: self.price@,
            last_modified_ledger: self.last_modified_ledger,
        }
    }
}

/// The canonical offer record. Amount and price stay decimal text, so that
/// nothing is rounded on the way.
#[derive(Debug, Clone, PartialEq, Eq)]
pub struct Offer {
    pub id: u64,
    pub seller: String,
    pub selling: Asset,
    pub buying: Asset,
    pub amount: String,
    pub price_n: i32,
    pub price_d: i32,
    pub price: String,
    pub last_modified_ledger: u64,
    pub last_modified_time: Option<Timestamp>,
}

/// The mathematical value of an [`Offer`].
pub struct OfferView {
    pub id: u64,
    pub seller: Seq<char>,
    pub selling: AssetView,
    pub buying: AssetView,
    pub amount: Seq<char>,
    pub price_n: i32,
    pub price_d: i32,
    pub price: Seq<char>,
    pub last_modified_ledger: u64,
    pub last_modified_time: Option<Timestamp>,
}

impl View for Offer {
    type V = OfferView;

    open spec fn view(&self) -> OfferView {
        OfferView {
            id: self.id,
            seller: self.seller@,
            selling: self.selling@,
            buying: self.buying@,
            amount: self.amount@,
            price_n: self.price_n,
            price_d: self.price_d,
            price: self.price@,
            last_modified_ledger: self.last_modified_ledger,
            last_modified_time: self.last_modified_time,
        }
    }
}

/// The mathematical value of the outcome of a normalization.
pub open spec fn offer_outcome(r: Result<Offer, NormalizationError>) -> Result<
    OfferView,
    NormalizationErrorView,
> {
    match r {
        Ok(o) => Ok(o@),
        Err(e) => Err(e@),
    }
}

/// Numerator and denominator of the stored price fraction: the stated
/// ratio, each term narrowed to 32 bits, or zero over one where the feed
/// states none.
pub open spec fn price_terms(r: Option<PriceRatio>) -> (i32, i32) {
    match r {
        Some(p) => (narrowed(p.n), narrowed(p.d)),
        None => (0, 1),
    }
}

/// The offer that a raw record normalizes to, or the first fault found in
/// it, looking at the identifier, then the asset sold, then the asset
/// bought.
pub open spec fn normalized(raw: RawOfferView) -> Result<OfferView, NormalizationErrorView> {
    match decimal_u64(raw.id) {
        None => Err(NormalizationErrorView::InvalidId(raw.id)),
        Some(id) => match asset_of(raw.selling) {
            Err(e) => Err(e),
            Ok(selling) => match asset_of(raw.buying) {
                Err(e) => Err(e),
                Ok(buying) => Ok(
                    OfferView {
                        id,
                        seller: raw.seller,
                        selling,
                        buying,
                        amount: raw.amount,
                        price_n: price_terms(raw.price_r).0,
                        price_d: price_terms(raw.price_r).1,
                        price: raw.price,
                        last_modified_ledger: raw.last_modified_ledger as u64,
                        last_modified_time: None,
                    },
                ),
            },
        },
    }
}

impl HorizonOffer {
    /// Reads the members of the two assets out of their JSON values and
    /// keeps every other field.
    pub fn read(self) -> (r: RawOffer)
        ensures
            r@ == self@,
    {
        let selling = read_raw_asset(&self.selling);
        let buying = read_raw_asset(&self.buying);
        RawOffer {
            id: self.id,
            seller: self.seller,
            selling,
            buying,
            amount: self.amount,
            price_r: self.price_r,
            price: self.price,
            last_modified_ledger: self.last_modified_ledger,
        }
    }
}

/// The two terms of the stored price fraction.
pub fn narrow_price(r: Option<PriceRatio>) -> (terms: (i32, i32))
    ensures
        terms == price_terms(r),
{
    match r {
        Some(p) => (narrow(p.n), narrow(p.d)),
        None => (0, 1),
    }
}

impl Offer {
    /// Normalizes a raw record: the whole offer that [`normalized`] gives,
    /// or the error that it gives and no offer.
    pub fn normalize(raw: RawOffer) -> (r: Result<Offer, NormalizationError>)
        ensures
            offer_outcome(r) == normalized(raw@),
    {
        let id: u64 = match parse_u64(raw.id.as_str()) {
            Some(id) => id,
            None => {
                return Err(NormalizationError::InvalidId(raw.id));
            },
        };
        let selling = match parse_raw_asset(&raw.selling) {
            Ok(a) => a,
            Err(e) => {
                return Err(e);
            },
        };
        let buying = match parse_raw_asset(&raw.buying) {
            Ok(a) => a,
            Err(e) => {
                return Err(e);
            },
        };
        let terms = narrow_price(raw.price_r);
        Ok(
            Offer {
                id,
                seller: raw.seller,
                selling,
                buying,
                amount: raw.amount,
                price_n: terms.0,
                price_d: terms.1,
                price: raw.price,
                last_modified_ledger: raw.last_modified_ledger as u64,
                last_modified_time: None,
            },
        )
    }

    /// Normalizes one record of the feed.
    pub fn try_from(horizon_offer: HorizonOffer) -> (r: Result<Offer, NormalizationError>)
        ensures
            offer_outcome(r) == normalized(horizon_offer@),
    {
        Offer::normalize(horizon_offer.read())
    }
}

/// A record whose identifier writes no unsigned 64-bit number is rejected
/// as an invalid identifier, which carries the text received; no offer
/// comes of it, whatever the other fields hold.
pub proof fn lemma_invalid_id_is_rejected(raw: RawOfferView)
    requires
        decimal_u64(raw.id) is None,
    ensures
        normalized(raw) == Err::<OfferView, NormalizationErrorView>(
            NormalizationErrorView::InvalidId(raw.id),
        ),
{
}

/// A record whose identifier holds a character that is no decimal digit,
/// other than one leading plus sign, is rejected as an invalid identifier.
pub proof fn lemma_non_numeric_id_is_rejected(raw: RawOfferView, i: int)
    requires
        0 <= i < raw.id.len(),
        !is_digit(raw.id[i]),
        !(i == 0 && raw.id[0] == '+'),
    ensures
        normalized(raw) == Err::<OfferView, NormalizationErrorView>(
            NormalizationErrorView::InvalidId(raw.id),
        ),
{
    lemma_non_digit_writes_no_number(raw.id, i);
}

/// With a valid identifier, a fault in the asset sold is the one reported,
/// whatever the asset bought holds; a fault in the asset bought is reported
/// only where the asset sold has none.
pub proof fn lemma_first_fault_is_reported(raw: RawOfferView)
    requires
        decimal_u64(raw.id) is Some,
    ensures
        asset_of(raw.selling) is Err ==> normalized(raw) == Err::<
            OfferView,
            NormalizationErrorView,
        >(asset_of(raw.selling)->Err_0),
        asset_of(raw.selling) is Ok && asset_of(raw.buying) is Err ==> normalized(raw) == Err::<
            OfferView,
            NormalizationErrorView,
        >(asset_of(raw.buying)->Err_0),
        asset_of(raw.selling) is Ok && asset_of(raw.buying) is Ok ==> normalized(raw) is Ok,
{
}

/// Normalization depends on the record alone: two runs on the same record
/// end in the same offer, field by field, or in the same error.
pub proof fn lemma_normalization_is_repeatable(
    record: HorizonOffer,
    first: Result<Offer, NormalizationError>,
    second: Result<Offer, NormalizationError>,
)
    requires
        offer_outcome(first) == normalized(record@),
        offer_outcome(second) == normalized(record@),
    ensures
        offer_outcome(first) == offer_outcome(second),
{
}

/// A normalized offer never states when it was last modified.
pub proof fn lemma_normalized_offer_has_no_time(raw: RawOfferView)
    requires
        normalized(raw) is Ok,
    ensures
        normalized(raw)->Ok_0.last_modified_time is None,
{
}

} // verus!
