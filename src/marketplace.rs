//! The marketplace: verified projects list credits at a fixed unit price,
//! buyers take them first come first served, and a fee in basis points goes
//! to the marketplace on each sale.
//!
//! Each operation takes the accounts it touches as one context value,
//! with the key of the program that owns them. An account that the
//! operation creates must sit at the address derived for it (see
//! `address`), and is an `Option`: `None` while nothing is stored there,
//! so a second creation for the same logical key fails. Time and the
//! outcome of asset transfers come in as arguments; an operation that
//! fails leaves its context unchanged.
use vstd::prelude::*;

use crate::address::{
    address_matches, address_of_keys, address_of_tag, address_of_text, found_at, program_address, tagged,
    tagged_keys, tagged_text,
};
use crate::common::{byte_len, first_failure, fits, Key, TransferFailure};

verus! {

/// Seed tag of the marketplace's address.
pub const MARKETPLACE_TAG: &'static str = "marketplace";

/// Seed tag of a project's address, with the project identifier.
pub const PROJECT_TAG: &'static str = "project";

/// Seed tag of a listing's address, with the project's and the seller's
/// keys.
pub const LISTING_TAG: &'static str = "listing";

/// Seed tag of a purchase's address, with the listing's and the buyer's
/// keys.
pub const PURCHASE_TAG: &'static str = "purchase";

/// Seed tag of a retirement's address, with the project's and the owner's
/// keys.
pub const RETIREMENT_TAG: &'static str = "retirement";

/// Basis points in a whole: a fee rate of 10000 takes the whole payment.
pub const BASIS_POINTS: u64 = 10000;

/// Longest project identifier, in bytes.
pub const MAX_PROJECT_ID_LEN: usize = 32;

/// Longest project name, in bytes.
pub const MAX_PROJECT_NAME_LEN: usize = 64;

/// Longest location, in bytes.
pub const MAX_LOCATION_LEN: usize = 64;

/// Longest metadata URI, in bytes.
pub const MAX_METADATA_URI_LEN: usize = 200;

/// Longest retirement reason, in bytes.
pub const MAX_RETIREMENT_REASON_LEN: usize = 200;

/// Marketplace-wide settings and running totals.
#[derive(Clone, Copy, Debug)]
pub struct Marketplace {
    pub authority: Key,
    /// Fee rate in basis points.
    pub fee_percentage: u16,
    pub min_credit_amount: u64,
    pub total_credits_traded: u64,
    pub total_volume: u64,
    pub active_listings: u64,
    pub verified_projects: u64,
}

/// The marketplace's record of a project whose credits may be traded.
#[derive(Clone, Debug)]
pub struct CarbonProject {
    pub project_id: String,
    pub project_name: String,
    pub project_type: ProjectType,
    pub developer: Key,
    pub location: String,
    pub estimated_credits: u64,
    pub issued_credits: u64,
    pub retired_credits: u64,
    pub verification_standard: VerificationStandard,
    pub status: ProjectStatus,
    pub created_at: i64,
    pub verified_at: Option<i64>,
    pub metadata_uri: String,
}

impl CarbonProject {
    /// Retired credits never exceed issued ones.
    pub open spec fn wf(&self) -> bool {
        self.retired_credits <= self.issued_credits
    }

    /// Credits issued and not yet retired.
    pub open spec fn available(&self) -> int {
        self.issued_credits - self.retired_credits
    }
}

/// A standing offer to sell credits of one project at a fixed unit price.
#[derive(Clone, Copy, Debug)]
pub struct CreditListing {
    pub project: Key,
    pub seller: Key,
    pub amount: u64,
    pub price_per_credit: u64,
    pub total_value: u64,
    pub status: ListingStatus,
    pub created_at: i64,
    pub expiry_time: i64,
}

impl CreditListing {
    /// A listing with nothing left to sell is marked sold.
    pub open spec fn wf(&self) -> bool {
        self.amount == 0 ==> self.status == ListingStatus::Sold
    }
}

/// The record of one completed purchase.
#[derive(Clone, Copy, Debug)]
pub struct CreditPurchase {
    pub listing: Key,
    pub buyer: Key,
    pub seller: Key,
    pub amount: u64,
    pub price_per_credit: u64,
    pub total_paid: u64,
    pub fee_paid: u64,
    pub purchased_at: i64,
}

/// The record of a bookkeeping retirement on the marketplace.
#[derive(Clone, Debug)]
pub struct CreditRetirement {
    pub owner: Key,
    pub project: Key,
    pub amount: u64,
    pub retirement_reason: String,
    pub retired_at: i64,
}

#[derive(Clone, Copy, Debug, PartialEq, Eq, Structural)]
pub enum ProjectType {
    Forestry,
    RenewableEnergy,
    EnergyEfficiency,
    Methane,
    Transportation,
    Agriculture,
    WasteManagement,
    CarbonCapture,
}

#[derive(Clone, Copy, Debug, PartialEq, Eq, Structural)]
pub enum VerificationStandard {
    VCS,
    CDM,
    GoldStandard,
    CAR,
    ACR,
    Plan,
}

#[derive(Clone, Copy, Debug, PartialEq, Eq, Structural)]
pub enum ProjectStatus {
    Pending,
    Verified,
    Suspended,
    Cancelled,
}

#[derive(Clone, Copy, Debug, PartialEq, Eq, Structural)]
pub enum ListingStatus {
    Active,
    Sold,
    Cancelled,
    Expired,
}

/// Why a marketplace operation was refused.
#[derive(Clone, Copy, Debug, PartialEq, Eq, Structural)]
pub enum ErrorCode {
    ProjectIdTooLong,
    ProjectNameTooLong,
    LocationTooLong,
    MetadataUriTooLong,
    InvalidAmount,
    InvalidPrice,
    InvalidExpiryTime,
    ProjectNotVerified,
    InsufficientCredits,
    ListingNotActive,
    InsufficientCreditsInListing,
    ListingExpired,
    RetirementReasonTooLong,
    /// The account given for a new record is not at the address derived
    /// for it.
    ConstraintSeeds,
    /// The account at the derived address already holds a record.
    AccountAlreadyInitialized,
    /// A quantity, price or total does not fit its integer type.
    ArithmeticOverflow,
    /// The asset-transfer service refused a transfer.
    TransferFailed(TransferFailure),
}

/// Amounts that one purchase moves.
#[derive(Clone, Copy, Debug, PartialEq, Eq, Structural)]
pub struct PurchaseQuote {
    /// What the buyer pays in all.
    pub total_cost: u64,
    /// The marketplace's share.
    pub fee_amount: u64,
    /// The seller's share.
    pub seller_amount: u64,
}

// Notifications, one for each successful operation.

#[derive(Clone, Copy, Debug)]
pub struct MarketplaceInitialized {
    pub authority: Key,
    pub fee_percentage: u16,
    pub min_credit_amount: u64,
}

#[derive(Clone, Debug)]
pub struct CarbonProjectCreated {
    pub project_id: String,
    pub developer: Key,
    pub project_type: ProjectType,
    pub estimated_credits: u64,
}

#[derive(Clone, Copy, Debug)]
pub struct CreditsListed {
    pub listing_id: Key,
    pub project: Key,
    pub seller: Key,
    pub amount: u64,
    pub price_per_credit: u64,
}

#[derive(Clone, Copy, Debug)]
pub struct CreditsPurchased {
    pub purchase_id: Key,
    pub buyer: Key,
    pub seller: Key,
    pub amount: u64,
    pub total_cost: u64,
}

#[derive(Clone, Debug)]
pub struct CreditsRetired {
    pub retirement_id: Key,
    pub owner: Key,
    pub project: Key,
    pub amount: u64,
    pub reason: String,
}

// Accounts of each operation.

pub struct InitializeMarketplace {
    pub program_id: Key,
    pub marketplace: Option<Marketplace>,
    pub marketplace_key: Key,
    pub authority: Key,
}

pub struct CreateCarbonProject {
    pub program_id: Key,
    pub project: Option<CarbonProject>,
    pub project_key: Key,
    pub marketplace: Marketplace,
    pub developer: Key,
}

pub struct ListCredits {
    pub program_id: Key,
    pub listing: Option<CreditListing>,
    pub listing_key: Key,
    pub project: CarbonProject,
    pub project_key: Key,
    pub marketplace: Marketplace,
    pub seller: Key,
}

pub struct PurchaseCredits {
    pub program_id: Key,
    pub listing: CreditListing,
    pub listing_key: Key,
    pub purchase: Option<CreditPurchase>,
    pub purchase_key: Key,
    pub marketplace: Marketplace,
    pub buyer: Key,
}

pub struct RetireCredits {
    pub program_id: Key,
    pub retirement: Option<CreditRetirement>,
    pub retirement_key: Key,
    pub project: CarbonProject,
    pub project_key: Key,
    pub owner: Key,
}

// ---------------------------------------------------------------------------
// Fees

/// The fee on a payment of `total` at `fee_bps` basis points, rounded down.
pub open spec fn fee_of(total: int, fee_bps: int) -> int {
    total * fee_bps / BASIS_POINTS as int
}

/// Whether splitting `total` at `fee_bps` stays within `u64`: the product
/// `total * fee_bps` fits, and the fee does not exceed the payment.
pub open spec fn split_fits(total: int, fee_bps: int) -> bool {
    total * fee_bps <= u64::MAX && fee_of(total, fee_bps) <= total
}

/// Splits a payment into the marketplace's fee and the seller's share, or
/// `None` where an intermediate value would overflow.
pub fn split_payment(total: u64, fee_bps: u16) -> (r: Option<(u64, u64)>)
    ensures
        r is Some <==> split_fits(total as int, fee_bps as int),
        r matches Some((fee, seller)) ==> fee == fee_of(total as int, fee_bps as int)
            && seller + fee == total,
{
    match total.checked_mul(fee_bps as u64) {
        None => None,
        Some(product) => {
            let fee = product / BASIS_POINTS;
            if fee > total {
                None
            } else {
                Some((fee, total - fee))
            }
        },
    }
}

// ---------------------------------------------------------------------------
// Purchases

/// What a buyer pays for `amount` credits of `listing`.
pub open spec fn cost_of(listing: CreditListing, amount: u64) -> int {
    amount * listing.price_per_credit
}

/// Why a purchase of `amount` credits at time `now` is refused, checked in
/// order; `None` where it may go ahead.
pub open spec fn purchase_rejection(ctx: PurchaseCredits, amount: u64, now: i64) -> Option<ErrorCode> {
    let total = cost_of(ctx.listing, amount);
    if !found_at(
        program_address(tagged_keys(PURCHASE_TAG, ctx.listing_key, ctx.buyer), ctx.program_id),
        ctx.purchase_key,
    ) {
        Some(ErrorCode::ConstraintSeeds)
    } else if ctx.purchase is Some {
        Some(ErrorCode::AccountAlreadyInitialized)
    } else if ctx.listing.status != ListingStatus::Active {
        Some(ErrorCode::ListingNotActive)
    } else if amount > ctx.listing.amount {
        Some(ErrorCode::InsufficientCreditsInListing)
    } else if now >= ctx.listing.expiry_time {
        Some(ErrorCode::ListingExpired)
    } else if total > u64::MAX || !split_fits(total, ctx.marketplace.fee_percentage as int)
        || ctx.marketplace.total_credits_traded + amount > u64::MAX
        || ctx.marketplace.total_volume + total > u64::MAX {
        Some(ErrorCode::ArithmeticOverflow)
    } else {
        None
    }
}

/// The quote for an accepted purchase of `amount` credits.
pub open spec fn quote_of(ctx: PurchaseCredits, amount: u64) -> PurchaseQuote {
    let total = cost_of(ctx.listing, amount);
    let fee = fee_of(total, ctx.marketplace.fee_percentage as int);
    PurchaseQuote {
        total_cost: total as u64,
        fee_amount: fee as u64,
        seller_amount: (total - fee) as u64,
    }
}

/// A listing after `amount` of its credits were sold: what is left, and
/// marked sold once nothing is.
pub open spec fn listing_after_sale(listing: CreditListing, amount: u64) -> CreditListing {
    let left = (listing.amount - amount) as u64;
    CreditListing {
        amount: left,
        status: if left == 0 {
            ListingStatus::Sold
        } else {
            listing.status
        },
        ..listing
    }
}

/// Checks a purchase of `amount` credits at time `now` and computes what it
/// moves: `total_cost` from the buyer, `seller_amount` of it to the seller
/// and `fee_amount` to the marketplace.
pub fn quote_purchase(ctx: &PurchaseCredits, amount: u64, now: i64) -> (r: Result<PurchaseQuote, ErrorCode>)
    ensures
        purchase_rejection(*ctx, amount, now) matches Some(e) ==> r == Err::<PurchaseQuote, ErrorCode>(e),
        purchase_rejection(*ctx, amount, now) is None
            ==> r == Ok::<PurchaseQuote, ErrorCode>(quote_of(*ctx, amount)),
        r matches Ok(q) ==> q.seller_amount + q.fee_amount == q.total_cost
            && q.total_cost == amount * ctx.listing.price_per_credit
            && q.fee_amount == q.total_cost * ctx.marketplace.fee_percentage / 10000,
{
    if !address_matches(
        address_of_keys(&ctx.program_id, PURCHASE_TAG, &ctx.listing_key, &ctx.buyer),
        &ctx.purchase_key,
    ) {
        return Err(ErrorCode::ConstraintSeeds);
    }
    if ctx.purchase.is_some() {
        return Err(ErrorCode::AccountAlreadyInitialized);
    }
    if ctx.listing.status != ListingStatus::Active {
        return Err(ErrorCode::ListingNotActive);
    }
    if amount > ctx.listing.amount {
        return Err(ErrorCode::InsufficientCreditsInListing);
    }
    if now >= ctx.listing.expiry_time {
        return Err(ErrorCode::ListingExpired);
    }
    let total_cost = match amount.checked_mul(ctx.listing.price_per_credit) {
        Some(t) => t,
        None => return Err(ErrorCode::ArithmeticOverflow),
    };
    let (fee_amount, seller_amount) = match split_payment(total_cost, ctx.marketplace.fee_percentage) {
        Some(split) => split,
        None => return Err(ErrorCode::ArithmeticOverflow),
    };
    if ctx.marketplace.total_credits_traded.checked_add(amount).is_none()
        || ctx.marketplace.total_volume.checked_add(total_cost).is_none() {
        return Err(ErrorCode::ArithmeticOverflow);
    }
    Ok(PurchaseQuote { total_cost, fee_amount, seller_amount })
}

/// Buys `amount` credits of the listing at time `now`. The buyer's payment
/// was split in two transfers (see `quote_purchase`): `seller_leg` and
/// `fee_leg` are their outcomes. The purchase is recorded only if it passes
/// every check and both transfers succeeded; otherwise nothing changes and
/// the first reason is returned.
pub fn purchase_credits(
    ctx: &mut PurchaseCredits,
    amount: u64,
    now: i64,
    seller_leg: Result<(), TransferFailure>,
    fee_leg: Result<(), TransferFailure>,
) -> (r: Result<CreditsPurchased, ErrorCode>)
    ensures
        r is Ok <==> purchase_rejection(*old(ctx), amount, now) is None
            && first_failure(seller_leg, fee_leg) is None,
        purchase_rejection(*old(ctx), amount, now) matches Some(e)
            ==> r == Err::<CreditsPurchased, ErrorCode>(e),
        purchase_rejection(*old(ctx), amount, now) is None ==> (first_failure(seller_leg, fee_leg) matches Some(
            f,
        ) ==> r == Err::<CreditsPurchased, ErrorCode>(ErrorCode::TransferFailed(f))),
        r is Err ==> *final(ctx) == *old(ctx),
        r is Ok ==> {
            let q = quote_of(*old(ctx), amount);
            &&& *final(ctx) == (PurchaseCredits {
                listing: listing_after_sale(old(ctx).listing, amount),
                purchase: Some(
                    CreditPurchase {
                        listing: old(ctx).listing_key,
                        buyer: old(ctx).buyer,
                        seller: old(ctx).listing.seller,
                        amount,
                        price_per_credit: old(ctx).listing.price_per_credit,
                        total_paid: q.total_cost,
                        fee_paid: q.fee_amount,
                        purchased_at: now,
                    },
                ),
                marketplace: Marketplace {
                    total_credits_traded: (old(ctx).marketplace.total_credits_traded + amount) as u64,
                    total_volume: (old(ctx).marketplace.total_volume + q.total_cost) as u64,
                    ..old(ctx).marketplace
                },
                ..*old(ctx)
            })
            &&& r == Ok::<CreditsPurchased, ErrorCode>(
                CreditsPurchased {
                    purchase_id: old(ctx).purchase_key,
                    buyer: old(ctx).buyer,
                    seller: old(ctx).listing.seller,
                    amount,
                    total_cost: q.total_cost,
                },
            )
        },
        r is Ok ==> amount <= old(ctx).listing.amount,
        old(ctx).listing.wf() ==> final(ctx).listing.wf(),
{
    let quote = match quote_purchase(ctx, amount, now) {
        Ok(q) => q,
        Err(e) => return Err(e),
    };
    if let Err(f) = seller_leg {
        return Err(ErrorCode::TransferFailed(f));
    }
    if let Err(f) = fee_leg {
        return Err(ErrorCode::TransferFailed(f));
    }
    let left = ctx.listing.amount - amount;
    ctx.listing.amount = left;
    if left == 0 {
        ctx.listing.status = ListingStatus::Sold;
    }
    ctx.purchase = Some(
        CreditPurchase {
            listing: ctx.listing_key,
            buyer: ctx.buyer,
            seller: ctx.listing.seller,
            amount,
            price_per_credit: ctx.listing.price_per_credit,
            total_paid: quote.total_cost,
            fee_paid: quote.fee_amount,
            purchased_at: now,
        },
    );
    ctx.marketplace.total_credits_traded = ctx.marketplace.total_credits_traded + amount;
    ctx.marketplace.total_volume = ctx.marketplace.total_volume + quote.total_cost;
    Ok(
        CreditsPurchased {
            purchase_id: ctx.purchase_key,
            buyer: ctx.buyer,
            seller: ctx.listing.seller,
            amount,
            total_cost: quote.total_cost,
        },
    )
}

// ---------------------------------------------------------------------------
// Setup, projects and listings

/// Why creating the marketplace is refused, checked in order; `None` where
/// it may go ahead.
pub open spec fn initialize_rejection(ctx: InitializeMarketplace) -> Option<ErrorCode> {
    if !found_at(program_address(tagged(MARKETPLACE_TAG), ctx.program_id), ctx.marketplace_key) {
        Some(ErrorCode::ConstraintSeeds)
    } else if ctx.marketplace is Some {
        Some(ErrorCode::AccountAlreadyInitialized)
    } else {
        None
    }
}

/// Creates the marketplace with its fee rate (basis points) and minimum
/// credit amount; all totals start at zero.
pub fn initialize_marketplace(
    ctx: &mut InitializeMarketplace,
    fee_percentage: u16,
    min_credit_amount: u64,
) -> (r: Result<MarketplaceInitialized, ErrorCode>)
    ensures
        initialize_rejection(*old(ctx)) matches Some(e) ==> r == Err::<MarketplaceInitialized, ErrorCode>(e)
            && *final(ctx) == *old(ctx),
        initialize_rejection(*old(ctx)) is None ==> r == Ok::<MarketplaceInitialized, ErrorCode>(
            MarketplaceInitialized { authority: old(ctx).authority, fee_percentage, min_credit_amount },
        ) && *final(ctx) == (InitializeMarketplace {
            marketplace: Some(
                Marketplace {
                    authority: old(ctx).authority,
                    fee_percentage,
                    min_credit_amount,
                    total_credits_traded: 0,
                    total_volume: 0,
                    active_listings: 0,
                    verified_projects: 0,
                },
            ),
            ..*old(ctx)
        }),
{
    if !address_matches(address_of_tag(&ctx.program_id, MARKETPLACE_TAG), &ctx.marketplace_key) {
        return Err(ErrorCode::ConstraintSeeds);
    }
    if ctx.marketplace.is_some() {
        return Err(ErrorCode::AccountAlreadyInitialized);
    }
    ctx.marketplace = Some(
        Marketplace {
            authority: ctx.authority,
            fee_percentage,
            min_credit_amount,
            total_credits_traded: 0,
            total_volume: 0,
            active_listings: 0,
            verified_projects: 0,
        },
    );
    Ok(MarketplaceInitialized { authority: ctx.authority, fee_percentage, min_credit_amount })
}

/// Why creating a project is refused, checked in order; `None` where it may
/// go ahead.
pub open spec fn create_project_rejection(
    ctx: CreateCarbonProject,
    project_id: String,
    project_name: String,
    location: String,
    metadata_uri: String,
) -> Option<ErrorCode> {
    if byte_len(project_id) > MAX_PROJECT_ID_LEN {
        Some(ErrorCode::ProjectIdTooLong)
    } else if !found_at(
        program_address(tagged_text(PROJECT_TAG, project_id), ctx.program_id),
        ctx.project_key,
    ) {
        Some(ErrorCode::ConstraintSeeds)
    } else if ctx.project is Some {
        Some(ErrorCode::AccountAlreadyInitialized)
    } else if byte_len(project_name) > MAX_PROJECT_NAME_LEN {
        Some(ErrorCode::ProjectNameTooLong)
    } else if byte_len(location) > MAX_LOCATION_LEN {
        Some(ErrorCode::LocationTooLong)
    } else if byte_len(metadata_uri) > MAX_METADATA_URI_LEN {
        Some(ErrorCode::MetadataUriTooLong)
    } else if ctx.marketplace.verified_projects + 1 > u64::MAX {
        Some(ErrorCode::ArithmeticOverflow)
    } else {
        None
    }
}

/// Records a developer's project on the marketplace, `Pending` and with no
/// credits, and counts it in the marketplace's project total. It becomes
/// tradable only once marked `Verified` from outside the marketplace.
pub fn create_carbon_project(
    ctx: &mut CreateCarbonProject,
    project_id: String,
    project_name: String,
    project_type: ProjectType,
    location: String,
    estimated_credits: u64,
    verification_standard: VerificationStandard,
    metadata_uri: String,
    now: i64,
) -> (r: Result<CarbonProjectCreated, ErrorCode>)
    ensures
        create_project_rejection(*old(ctx), project_id, project_name, location, metadata_uri) matches Some(e)
            ==> r == Err::<CarbonProjectCreated, ErrorCode>(e) && *final(ctx) == *old(ctx),
        create_project_rejection(*old(ctx), project_id, project_name, location, metadata_uri) is None ==> {
            &&& r == Ok::<CarbonProjectCreated, ErrorCode>(
                CarbonProjectCreated {
                    project_id,
                    developer: old(ctx).developer,
                    project_type,
                    estimated_credits,
                },
            )
            &&& *final(ctx) == (CreateCarbonProject {
                project: Some(
                    CarbonProject {
                        project_id,
                        project_name,
                        project_type,
                        developer: old(ctx).developer,
                        location,
                        estimated_credits,
                        issued_credits: 0,
                        retired_credits: 0,
                        verification_standard,
                        status: ProjectStatus::Pending,
                        created_at: now,
                        verified_at: None,
                        metadata_uri,
                    },
                ),
                marketplace: Marketplace {
                    verified_projects: (old(ctx).marketplace.verified_projects + 1) as u64,
                    ..old(ctx).marketplace
                },
                ..*old(ctx)
            })
        },
{
    if !fits(&project_id, MAX_PROJECT_ID_LEN) {
        return Err(ErrorCode::ProjectIdTooLong);
    }
    if !address_matches(address_of_text(&ctx.program_id, PROJECT_TAG, &project_id), &ctx.project_key) {
        return Err(ErrorCode::ConstraintSeeds);
    }
    if ctx.project.is_some() {
        return Err(ErrorCode::AccountAlreadyInitialized);
    }
    if !fits(&project_name, MAX_PROJECT_NAME_LEN) {
        return Err(ErrorCode::ProjectNameTooLong);
    }
    if !fits(&location, MAX_LOCATION_LEN) {
        return Err(ErrorCode::LocationTooLong);
    }
    if !fits(&metadata_uri, MAX_METADATA_URI_LEN) {
        return Err(ErrorCode::MetadataUriTooLong);
    }
    let count = match ctx.marketplace.verified_projects.checked_add(1) {
        Some(c) => c,
        None => return Err(ErrorCode::ArithmeticOverflow),
    };
    let event = CarbonProjectCreated {
        project_id: project_id.clone(),
        developer: ctx.developer,
        project_type,
        estimated_credits,
    };
    ctx.project = Some(
        CarbonProject {
            project_id,
            project_name,
            project_type,
            developer: ctx.developer,
            location,
            estimated_credits,
            issued_credits: 0,
            retired_credits: 0,
            verification_standard,
            status: ProjectStatus::Pending,
            created_at: now,
            verified_at: None,
            metadata_uri,
        },
    );
    ctx.marketplace.verified_projects = count;
    Ok(event)
}

/// Why listing `amount` credits at `price_per_credit` until `expiry_time`
/// is refused at time `now`, checked in order; `None` where it may go ahead.
pub open spec fn listing_rejection(
    ctx: ListCredits,
    amount: u64,
    price_per_credit: u64,
    expiry_time: i64,
    now: i64,
) -> Option<ErrorCode> {
    if !found_at(
        program_address(tagged_keys(LISTING_TAG, ctx.project_key, ctx.seller), ctx.program_id),
        ctx.listing_key,
    ) {
        Some(ErrorCode::ConstraintSeeds)
    } else if ctx.listing is Some {
        Some(ErrorCode::AccountAlreadyInitialized)
    } else if amount == 0 {
        Some(ErrorCode::InvalidAmount)
    } else if price_per_credit == 0 {
        Some(ErrorCode::InvalidPrice)
    } else if expiry_time <= now {
        Some(ErrorCode::InvalidExpiryTime)
    } else if ctx.project.status != ProjectStatus::Verified {
        Some(ErrorCode::ProjectNotVerified)
    } else if amount > ctx.project.available() {
        Some(ErrorCode::InsufficientCredits)
    } else if amount * price_per_credit > u64::MAX || ctx.marketplace.active_listings + 1 > u64::MAX {
        Some(ErrorCode::ArithmeticOverflow)
    } else {
        None
    }
}

/// Offers `amount` credits of a verified project at `price_per_credit`
/// until `expiry_time`. The amount may not exceed the project's credits
/// issued and not retired; the listing starts `Active`, with a total value
/// of amount times price.
pub fn list_credits(
    ctx: &mut ListCredits,
    amount: u64,
    price_per_credit: u64,
    expiry_time: i64,
    now: i64,
) -> (r: Result<CreditsListed, ErrorCode>)
    ensures
        listing_rejection(*old(ctx), amount, price_per_credit, expiry_time, now) matches Some(e)
            ==> r == Err::<CreditsListed, ErrorCode>(e) && *final(ctx) == *old(ctx),
        listing_rejection(*old(ctx), amount, price_per_credit, expiry_time, now) is None ==> {
            &&& r == Ok::<CreditsListed, ErrorCode>(
                CreditsListed {
                    listing_id: old(ctx).listing_key,
                    project: old(ctx).project_key,
                    seller: old(ctx).seller,
                    amount,
                    price_per_credit,
                },
            )
            &&& *final(ctx) == (ListCredits {
                listing: Some(
                    CreditListing {
                        project: old(ctx).project_key,
                        seller: old(ctx).seller,
                        amount,
                        price_per_credit,
                        total_value: (amount * price_per_credit) as u64,
                        status: ListingStatus::Active,
                        created_at: now,
                        expiry_time,
                    },
                ),
                marketplace: Marketplace {
                    active_listings: (old(ctx).marketplace.active_listings + 1) as u64,
                    ..old(ctx).marketplace
                },
                ..*old(ctx)
            })
        },
        r is Ok ==> (final(ctx).listing matches Some(l) ==> l.wf()),
{
    if !address_matches(
        address_of_keys(&ctx.program_id, LISTING_TAG, &ctx.project_key, &ctx.seller),
        &ctx.listing_key,
    ) {
        return Err(ErrorCode::ConstraintSeeds);
    }
    if ctx.listing.is_some() {
        return Err(ErrorCode::AccountAlreadyInitialized);
    }
    if amount == 0 {
        return Err(ErrorCode::InvalidAmount);
    }
    if price_per_credit == 0 {
        return Err(ErrorCode::InvalidPrice);
    }
    if expiry_time <= now {
        return Err(ErrorCode::InvalidExpiryTime);
    }
    if ctx.project.status != ProjectStatus::Verified {
        return Err(ErrorCode::ProjectNotVerified);
    }
    if ctx.project.retired_credits > ctx.project.issued_credits
        || amount > ctx.project.issued_credits - ctx.project.retired_credits {
        return Err(ErrorCode::InsufficientCredits);
    }
    let total_value = match amount.checked_mul(price_per_credit) {
        Some(v) => v,
        None => return Err(ErrorCode::ArithmeticOverflow),
    };
    let active = match ctx.marketplace.active_listings.checked_add(1) {
        Some(n) => n,
        None => return Err(ErrorCode::ArithmeticOverflow),
    };
    ctx.listing = Some(
        CreditListing {
            project: ctx.project_key,
            seller: ctx.seller,
            amount,
            price_per_credit,
            total_value,
            status: ListingStatus::Active,
            created_at: now,
            expiry_time,
        },
    );
    ctx.marketplace.active_listings = active;
    Ok(
        CreditsListed {
            listing_id: ctx.listing_key,
            project: ctx.project_key,
            seller: ctx.seller,
            amount,
            price_per_credit,
        },
    )
}

// ---------------------------------------------------------------------------
// Retirement

/// Why retiring `amount` credits for `reason` is refused, checked in order;
/// `None` where it may go ahead.
pub open spec fn retirement_rejection(ctx: RetireCredits, amount: u64, reason: String) -> Option<ErrorCode> {
    if !found_at(
        program_address(tagged_keys(RETIREMENT_TAG, ctx.project_key, ctx.owner), ctx.program_id),
        ctx.retirement_key,
    ) {
        Some(ErrorCode::ConstraintSeeds)
    } else if ctx.retirement is Some {
        Some(ErrorCode::AccountAlreadyInitialized)
    } else if amount == 0 {
        Some(ErrorCode::InvalidAmount)
    } else if byte_len(reason) > MAX_RETIREMENT_REASON_LEN {
        Some(ErrorCode::RetirementReasonTooLong)
    } else if amount > ctx.project.available() {
        Some(ErrorCode::InsufficientCredits)
    } else {
        None
    }
}

/// Retires `amount` of the project's credits in the marketplace's books: a
/// retirement record, and the project's retired count grows by `amount`. No
/// asset is burnt here. The count never passes the issued count.
pub fn retire_credits(ctx: &mut RetireCredits, amount: u64, retirement_reason: String, now: i64) -> (r: Result<
    CreditsRetired,
    ErrorCode,
>)
    ensures
        retirement_rejection(*old(ctx), amount, retirement_reason) matches Some(e)
            ==> r == Err::<CreditsRetired, ErrorCode>(e) && *final(ctx) == *old(ctx),
        retirement_rejection(*old(ctx), amount, retirement_reason) is None ==> {
            &&& r == Ok::<CreditsRetired, ErrorCode>(
                CreditsRetired {
                    retirement_id: old(ctx).retirement_key,
                    owner: old(ctx).owner,
                    project: old(ctx).project_key,
                    amount,
                    reason: retirement_reason,
                },
            )
            &&& *final(ctx) == (RetireCredits {
                retirement: Some(
                    CreditRetirement {
                        owner: old(ctx).owner,
                        project: old(ctx).project_key,
                        amount,
                        retirement_reason,
                        retired_at: now,
                    },
                ),
                project: CarbonProject {
                    retired_credits: (old(ctx).project.retired_credits + amount) as u64,
                    ..old(ctx).project
                },
                ..*old(ctx)
            })
        },
        r is Ok ==> final(ctx).project.wf(),
        old(ctx).project.wf() ==> final(ctx).project.wf(),
{
    if !address_matches(
        address_of_keys(&ctx.program_id, RETIREMENT_TAG, &ctx.project_key, &ctx.owner),
        &ctx.retirement_key,
    ) {
        return Err(ErrorCode::ConstraintSeeds);
    }
    if ctx.retirement.is_some() {
        return Err(ErrorCode::AccountAlreadyInitialized);
    }
    if amount == 0 {
        return Err(ErrorCode::InvalidAmount);
    }
    if !fits(&retirement_reason, MAX_RETIREMENT_REASON_LEN) {
        return Err(ErrorCode::RetirementReasonTooLong);
    }
    if ctx.project.retired_credits > ctx.project.issued_credits
        || amount > ctx.project.issued_credits - ctx.project.retired_credits {
        return Err(ErrorCode::InsufficientCredits);
    }
    ctx.retirement = Some(
        CreditRetirement {
            owner: ctx.owner,
            project: ctx.project_key,
            amount,
            retirement_reason: retirement_reason.clone(),
            retired_at: now,
        },
    );
    ctx.project.retired_credits = ctx.project.retired_credits + amount;
    Ok(
        CreditsRetired {
            retirement_id: ctx.retirement_key,
            owner: ctx.owner,
            project: ctx.project_key,
            amount,
            reason: retirement_reason,
        },
    )
}

// ---------------------------------------------------------------------------
// Selling a listing down

/// Sum of a sequence of amounts.
pub open spec fn total_of(amounts: Seq<u64>) -> int
    decreases amounts.len(),
{
    if amounts.len() == 0 {
        0
    } else {
        total_of(amounts.drop_last()) + amounts.last()
    }
}

/// A listing after sales of the given amounts, one after another.
pub open spec fn after_sales(listing: CreditListing, amounts: Seq<u64>) -> CreditListing
    decreases amounts.len(),
{
    if amounts.len() == 0 {
        listing
    } else {
        listing_after_sale(after_sales(listing, amounts.drop_last()), amounts.last())
    }
}

/// Whether each sale asks for no more than the listing still holds when it
/// comes, as `purchase_credits` demands of every purchase it accepts.
pub open spec fn sales_fit(listing: CreditListing, amounts: Seq<u64>) -> bool
    decreases amounts.len(),
{
    amounts.len() == 0 || (sales_fit(listing, amounts.drop_last()) && amounts.last() <= after_sales(
        listing,
        amounts.drop_last(),
    ).amount)
}

/// No overselling: after any sequence of accepted purchases against a
/// listing, the credits sold plus those left equal the amount first listed,
/// so no more is ever sold than was listed; and a listing with nothing left
/// is marked sold.
pub proof fn lemma_no_overselling(listing: CreditListing, amounts: Seq<u64>)
    requires
        sales_fit(listing, amounts),
    ensures
        total_of(amounts) + after_sales(listing, amounts).amount == listing.amount,
        total_of(amounts) <= listing.amount,
        listing.wf() ==> after_sales(listing, amounts).wf(),
    decreases amounts.len(),
{
    if amounts.len() > 0 {
        lemma_no_overselling(listing, amounts.drop_last());
    }
}

} // verus!
