//! Assets: the closed set of kinds that a raw asset object may declare.

use vstd::prelude::*;
use crate::error::{NormalizationError, NormalizationErrorView};
use crate::json::{member_of, string_member, string_members, text_of};

verus! {

/// A tradable unit: the native unit, or a credit token with a short or a
/// long code and the account that issued it.
#[derive(Debug, Clone, PartialEq, Eq)]
pub enum Asset {
    Native,
    CreditAlphanum4 { asset_code: String, asset_issuer: String },
    CreditAlphanum12 { asset_code: String, asset_issuer: String },
}

/// The mathematical value of an [`Asset`].
pub enum AssetView {
    Native,
    CreditAlphanum4 { asset_code: Seq<char>, asset_issuer: Seq<char> },
    CreditAlphanum12 { asset_code: Seq<char>, asset_issuer: Seq<char> },
}

impl View for Asset {
    type V = AssetView;

    open spec fn view(&self) -> AssetView {
        match self {
            Asset::Native => AssetView::Native,
            Asset::CreditAlphanum4 { asset_code, asset_issuer } => AssetView::CreditAlphanum4 {
                asset_code: asset_code@,
                asset_issuer: asset_issuer@,
            },
            Asset::CreditAlphanum12 { asset_code, asset_issuer } => AssetView::CreditAlphanum12 {
                asset_code: asset_code@,
                asset_issuer: asset_issuer@,
            },
        }
    }
}

impl AssetView {
    /// Whether the code is no longer than its kind allows: four characters
    /// for the short kind, twelve for the long one.
    pub open spec fn code_fits(self) -> bool {
        match self {
            AssetView::Native => true,
            AssetView::CreditAlphanum4 { asset_code, .. } => asset_code.len() <= 4,
            AssetView::CreditAlphanum12 { asset_code, .. } => asset_code.len() <= 12,
        }
    }
}

impl Asset {
    /// Whether the code is no longer than its kind allows. Parsing does not
    /// ask this of a raw asset: it takes the code as the feed states it.
    pub fn code_fits(&self) -> (r: bool)
        ensures
            r == self@.code_fits(),
    {
        match self {
            Asset::Native => true,
            Asset::CreditAlphanum4 { asset_code, .. } => asset_code.as_str().unicode_len() <= 4,
            Asset::CreditAlphanum12 { asset_code, .. } => asset_code.as_str().unicode_len() <= 12,
        }
    }
}

/// The three members of a raw asset object that normalization reads, each
/// present only if the object holds it as a string.
#[derive(Debug, Clone, PartialEq, Eq)]
pub struct RawAsset {
    pub asset_type: Option<String>,
    pub asset_code: Option<String>,
    pub asset_issuer: Option<String>,
}

/// The mathematical value of a [`RawAsset`].
pub struct RawAssetView {
    pub asset_type: Option<Seq<char>>,
    pub asset_code: Option<Seq<char>>,
    pub asset_issuer: Option<Seq<char>>,
}

impl View for RawAsset {
    type V = RawAssetView;

    open spec fn view(&self) -> RawAssetView {
        RawAssetView {
            asset_type: text_of(self.asset_type),
            asset_code: text_of(self.asset_code),
            asset_issuer: text_of(self.asset_issuer),
        }
    }
}

/// The mathematical value of the outcome of parsing an asset.
pub open spec fn asset_outcome(r: Result<Asset, NormalizationError>) -> Result<
    AssetView,
    NormalizationErrorView,
> {
    match r {
        Ok(a) => Ok(a@),
        Err(e) => Err(e@),
    }
}

/// The code and issuer of a credit asset, or the first of the two that is
/// missing.
pub open spec fn credit_parts(raw: RawAssetView) -> Result<
    (Seq<char>, Seq<char>),
    NormalizationErrorView,
> {
    match raw.asset_code {
        None => Err(NormalizationErrorView::MissingField("asset_code"@)),
        Some(code) => match raw.asset_issuer {
            None => Err(NormalizationErrorView::MissingField("asset_issuer"@)),
            Some(issuer) => Ok((code, issuer)),
        },
    }
}

/// What a raw asset object stands for. The declared type decides: the native
/// unit has no further fields, whatever else the object holds; the two
/// credit kinds need a code and an issuer; any other type is rejected and
/// never coerced.
pub open spec fn asset_of(raw: RawAssetView) -> Result<AssetView, NormalizationErrorView> {
    match raw.asset_type {
        None => Err(NormalizationErrorView::MissingField("asset_type"@)),
        Some(t) => if t == "native"@ {
            Ok(AssetView::Native)
        } else if t == "credit_alphanum4"@ {
            match credit_parts(raw) {
                Ok(p) => Ok(AssetView::CreditAlphanum4 { asset_code: p.0, asset_issuer: p.1 }),
                Err(e) => Err(e),
            }
        } else if t == "credit_alphanum12"@ {
            match credit_parts(raw) {
                Ok(p) => Ok(AssetView::CreditAlphanum12 { asset_code: p.0, asset_issuer: p.1 }),
                Err(e) => Err(e),
            }
        } else {
            Err(NormalizationErrorView::UnknownAssetType(t))
        },
    }
}

/// The members of a JSON object that make up a raw asset.
pub open spec fn raw_asset_of(members: Map<Seq<char>, Seq<char>>) -> RawAssetView {
    RawAssetView {
        asset_type: member_of(members, "asset_type"@),
        asset_code: member_of(members, "asset_code"@),
        asset_issuer: member_of(members, "asset_issuer"@),
    }
}

/// Whether two strings hold the same characters.
fn same_text(a: &String, b: &str) -> (r: bool)
    ensures
        r == (a@ == b@),
{
    let other = b.to_owned();
    *a == other
}

/// Reads from a JSON value the three members that make up a raw asset.
pub fn read_raw_asset(v: &serde_json::Value) -> (r: RawAsset)
    ensures
        r@ == raw_asset_of(string_members(*v)),
{
    RawAsset {
        asset_type: string_member(v, "asset_type"),
        asset_code: string_member(v, "asset_code"),
        asset_issuer: string_member(v, "asset_issuer"),
    }
}

/// The code and issuer of a credit asset.
fn credit_fields(raw: &RawAsset) -> (r: Result<(String, String), NormalizationError>)
    ensures
        match r {
            Ok(p) => credit_parts(raw@) == Ok::<(Seq<char>, Seq<char>), NormalizationErrorView>(
                (p.0@, p.1@),
            ),
            Err(e) => credit_parts(raw@) == Err::<(Seq<char>, Seq<char>), NormalizationErrorView>(
                e@,
            ),
        },
{
    match &raw.asset_code {
        None => Err(NormalizationError::MissingField("asset_code".to_owned())),
        Some(code) => match &raw.asset_issuer {
            None => Err(NormalizationError::MissingField("asset_issuer".to_owned())),
            Some(issuer) => Ok((code.clone(), issuer.clone())),
        },
    }
}

/// Parses a raw asset: `Ok` with the asset that [`asset_of`] gives, or the
/// error that it gives.
pub fn parse_raw_asset(raw: &RawAsset) -> (r: Result<Asset, NormalizationError>)
    ensures
        asset_outcome(r) == asset_of(raw@),
{
    match &raw.asset_type {
        None => Err(NormalizationError::MissingField("asset_type".to_owned())),
        Some(t) => {
            if same_text(t, "native") {
                Ok(Asset::Native)
            } else if same_text(t, "credit_alphanum4") {
                match credit_fields(raw) {
                    Ok(p) => Ok(Asset::CreditAlphanum4 { asset_code: p.0, asset_issuer: p.1 }),
                    Err(e) => Err(e),
                }
            } else if same_text(t, "credit_alphanum12") {
                match credit_fields(raw) {
                    Ok(p) => Ok(Asset::CreditAlphanum12 { asset_code: p.0, asset_issuer: p.1 }),
                    Err(e) => Err(e),
                }
            } else {
                Err(NormalizationError::UnknownAssetType(t.clone()))
            }
        },
    }
}

/// Parses the asset that a JSON value describes.
pub fn parse_asset_from_value(v: &serde_json::Value) -> (r: Result<Asset, NormalizationError>)
    ensures
        asset_outcome(r) == asset_of(raw_asset_of(string_members(*v))),
{
    let raw = read_raw_asset(v);
    parse_raw_asset(&raw)
}

/// A raw asset whose declared type is `native` is the native asset, whatever
/// its other members hold.
pub proof fn lemma_native_ignores_other_members(raw: RawAssetView)
    requires
        raw.asset_type == Some("native"@),
    ensures
        asset_of(raw) == Ok::<AssetView, NormalizationErrorView>(AssetView::Native),
{
}

/// The kind of a parsed asset is the kind that the raw asset declares, and
/// its code and issuer are those that the raw asset holds.
pub proof fn lemma_kind_matches_declared_type(raw: RawAssetView)
    requires
        asset_of(raw) is Ok,
    ensures
        match asset_of(raw)->Ok_0 {
            AssetView::Native => raw.asset_type == Some("native"@),
            AssetView::CreditAlphanum4 { asset_code, asset_issuer } => {
                &&& raw.asset_type == Some("credit_alphanum4"@)
                &&& raw.asset_code == Some(asset_code)
                &&& raw.asset_issuer == Some(asset_issuer)
            },
            AssetView::CreditAlphanum12 { asset_code, asset_issuer } => {
                &&& raw.asset_type == Some("credit_alphanum12"@)
                &&& raw.asset_code == Some(asset_code)
                &&& raw.asset_issuer == Some(asset_issuer)
            },
        },
{
}

/// A raw asset that declares one of the two credit kinds and holds no code
/// is rejected for the missing `asset_code`, whatever its issuer.
pub proof fn lemma_credit_without_code_is_rejected(raw: RawAssetView)
    requires
        raw.asset_type == Some("credit_alphanum4"@) || raw.asset_type == Some(
            "credit_alphanum12"@,
        ),
        raw.asset_code is None,
    ensures
        asset_of(raw) == Err::<AssetView, NormalizationErrorView>(
            NormalizationErrorView::MissingField("asset_code"@),
        ),
{
    reveal_strlit("native");
    reveal_strlit("credit_alphanum4");
    reveal_strlit("credit_alphanum12");
    assert(raw.asset_type->0.len() != "native"@.len());
}

} // verus!
