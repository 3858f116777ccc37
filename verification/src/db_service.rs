//! The durable record of whether the athlete is on the trail, as the status
//! store keeps it in its single row.

use vstd::prelude::*;
use vstd::string::StringExecFns;
use crate::auth::{TokenData, TokenDataView};
use crate::encryption::{decrypt, decrypted, encrypt, EncryptError};

verus! {

/// The durable status: one row, overwritten and never deleted.
#[derive(Debug)]
pub struct TroyStatus {
    pub is_on_trail: bool,
    /// The live-tracking feed to poll, while there is one.
    pub beacon_url: Option<String>,
    /// When `is_on_trail` was last written, in seconds since the Unix epoch.
    pub trail_status_updated: Option<u64>,
}

/// `TroyStatus` with its text as a sequence of characters.
pub struct TroyStatusView {
    pub is_on_trail: bool,
    pub beacon_url: Option<Seq<char>>,
    pub trail_status_updated: Option<u64>,
}

impl View for TroyStatus {
    type V = TroyStatusView;

    open spec fn view(&self) -> TroyStatusView {
        TroyStatusView {
            is_on_trail: self.is_on_trail,
            beacon_url: self.beacon_url.deep_view(),
            trail_status_updated: self.trail_status_updated,
        }
    }
}

/// The tables of the store.
#[derive(Clone, Copy, Debug, PartialEq, Eq, Structural)]
pub enum DBTable {
    TroyStatus,
    StravaAuth,
}

/// The statement that creates the status table.
pub const CREATE_TROY_STATUS: &'static str =
    "CREATE TABLE IF NOT EXISTS troy_status (id INTEGER PRIMARY KEY CHECK (id = 1), is_on_trail INTEGER, beacon_url TEXT, trail_status_updated INTEGER)";

/// The statement that creates the credential table.
pub const CREATE_STRAVA_AUTH: &'static str =
    "CREATE TABLE IF NOT EXISTS strava_auth (id INTEGER PRIMARY KEY CHECK (id = 1), access_token TEXT, refresh_token TEXT, expires_at INTEGER)";

/// The statement that adds the feed's column to a status table made before
/// there was one.
pub const ADD_BEACON_URL: &'static str = "ALTER TABLE troy_status ADD COLUMN beacon_url TEXT";

/// The statement that reads the status.
pub const SELECT_TROY_STATUS: &'static str = "SELECT * FROM troy_status";

/// The statement that reads the credential.
pub const SELECT_STRAVA_AUTH: &'static str = "SELECT * FROM strava_auth";

/// The statement that writes the on-trail flag and the time of writing.
pub const UPSERT_ON_TRAIL: &'static str =
    "INSERT INTO troy_status (id, is_on_trail, trail_status_updated) VALUES (1, ?, ?) ON CONFLICT (id) DO UPDATE SET is_on_trail = excluded.is_on_trail, trail_status_updated = excluded.trail_status_updated";

/// The statement that writes the feed's address.
pub const UPSERT_BEACON_URL: &'static str =
    "INSERT INTO troy_status (id, beacon_url) VALUES (1, ?) ON CONFLICT (id) DO UPDATE SET beacon_url = excluded.beacon_url";

/// The statement that writes the credential.
pub const UPSERT_STRAVA_AUTH: &'static str =
    "INSERT INTO strava_auth (id, access_token, refresh_token, expires_at) VALUES (1, ?, ?, ?) ON CONFLICT (id) DO UPDATE SET access_token = excluded.access_token, refresh_token = excluded.refresh_token, expires_at = excluded.expires_at";

impl DBTable {
    /// The name of the table in the store.
    pub open spec fn table_name(self) -> Seq<char> {
        match self {
            DBTable::TroyStatus => "troy_status"@,
            DBTable::StravaAuth => "strava_auth"@,
        }
    }

    /// The name of the table in the store.
    pub fn name(&self) -> (name: String)
        ensures
            name@ == self.table_name(),
    {
        match self {
            DBTable::TroyStatus => String::from_str("troy_status"),
            DBTable::StravaAuth => String::from_str("strava_auth"),
        }
    }
}

/// The status row as the store returns it.
#[derive(Debug)]
pub struct TroyStatusRow {
    pub id: i64,
    pub is_on_trail: u8,
    pub beacon_url: Option<String>,
    pub trail_status_updated: u64,
}

/// The status that a row stands for; without a row the athlete is off the
/// trail, no feed is known and nothing was ever written.
pub open spec fn status_of_row(row: Option<TroyStatusRow>) -> TroyStatusView {
    match row {
        Some(row) => TroyStatusView {
            is_on_trail: row.is_on_trail == 1,
            beacon_url: row.beacon_url.deep_view(),
            trail_status_updated: Some(row.trail_status_updated),
        },
        None => TroyStatusView { is_on_trail: false, beacon_url: None, trail_status_updated: None },
    }
}

/// The durable status, given the row that the store returned, if any.
pub fn get_troy_status(row: Option<TroyStatusRow>) -> (status: TroyStatus)
    ensures
        status@ == status_of_row(row),
{
    match row {
        Some(row) => TroyStatus {
            is_on_trail: row.is_on_trail == 1,
            beacon_url: row.beacon_url,
            trail_status_updated: Some(row.trail_status_updated),
        },
        None => TroyStatus { is_on_trail: false, beacon_url: None, trail_status_updated: None },
    }
}

/// The on-trail flag as the store keeps it: 1 for on, 0 for off.
pub fn set_troy_status(is_on_trail: bool) -> (flag: i64)
    ensures
        flag == if is_on_trail {
            1i64
        } else {
            0i64
        },
{
    if is_on_trail {
        1
    } else {
        0
    }
}

/// A statement that changed no row did not do its work.
#[derive(Clone, Copy, Debug, PartialEq, Eq, Structural)]
pub struct NoRowAffected;

/// Checks the number of rows that a writing statement changed: none is a
/// failure, any other number is passed on.
pub fn execute(rows_affected: u64) -> (checked: Result<u64, NoRowAffected>)
    ensures
        checked == if rows_affected == 0 {
            Err::<u64, NoRowAffected>(NoRowAffected)
        } else {
            Ok::<u64, NoRowAffected>(rows_affected)
        },
{
    if rows_affected == 0 {
        Err(NoRowAffected)
    } else {
        Ok(rows_affected)
    }
}

/// The credential row as the store keeps it: both tokens sealed.
#[derive(Debug)]
pub struct StravaAuthRow {
    pub id: i64,
    pub expires_at: u64,
    pub access_token: Vec<u8>,
    pub refresh_token: Vec<u8>,
}

/// Opens a stored credential under `key`. It is found exactly where both
/// tokens open and are text.
pub fn get_strava_auth(key: &str, row: StravaAuthRow) -> (token: Result<TokenData, EncryptError>)
    ensures
        token.is_ok() == (decrypted(key@, row.access_token@).is_some() && decrypted(
            key@,
            row.refresh_token@,
        ).is_some()),
        token matches Ok(found) ==> found@ == (TokenDataView {
            expires_at: row.expires_at,
            access_token: decrypted(key@, row.access_token@).unwrap(),
            refresh_token: decrypted(key@, row.refresh_token@).unwrap(),
        }),
{
    let access_token = match decrypt(key, row.access_token) {
        Ok(text) => text,
        Err(error) => {
            return Err(error);
        },
    };
    let refresh_token = match decrypt(key, row.refresh_token) {
        Ok(text) => text,
        Err(error) => {
            return Err(error);
        },
    };
    Ok(TokenData { expires_at: row.expires_at, access_token, refresh_token })
}

/// Seals a credential under `key` for the store.
///
/// The access token is sealed first, and the refresh token only once that is
/// done. Whether a sealing succeeds is for the container crate to say. A row
/// that comes back is the one row of its table, and [`get_strava_auth`] finds
/// the credential in it under the same key; a failure that comes back is the
/// container crate's refusal to seal.
pub fn set_strava_auth(key: &str, token_data: TokenData) -> (row: Result<
    StravaAuthRow,
    EncryptError,
>)
    ensures
        match row {
            Ok(sealed) => sealed.id == 1 && sealed.expires_at == token_data.expires_at
                && decrypted(key@, sealed.access_token@) == Some(token_data.access_token@)
                && decrypted(key@, sealed.refresh_token@) == Some(token_data.refresh_token@),
            Err(error) => error is CocoonError,
        },
{
    let expires_at = token_data.expires_at;
    let access_token = encrypt(key, token_data.access_token);
    let refresh_token = match &access_token {
        Ok(_) => encrypt(key, token_data.refresh_token),
        Err(error) => Err(*error),
    };
    strava_auth_row(expires_at, access_token, refresh_token)
}

/// `StravaAuthRow` with its sealed tokens as sequences of bytes.
pub struct StravaAuthRowView {
    pub id: i64,
    pub expires_at: u64,
    pub access_token: Seq<u8>,
    pub refresh_token: Seq<u8>,
}

impl View for StravaAuthRow {
    type V = StravaAuthRowView;

    open spec fn view(&self) -> StravaAuthRowView {
        StravaAuthRowView {
            id: self.id,
            expires_at: self.expires_at,
            access_token: self.access_token@,
            refresh_token: self.refresh_token@,
        }
    }
}

/// The row that comes of sealing a credential's two tokens: the one row of
/// its table, holding both containers, where both were sealed; else the
/// failure of the access token's sealing, or, where that was sealed, of the
/// refresh token's.
pub open spec fn sealed_row(
    expires_at: u64,
    access_token: Result<Vec<u8>, EncryptError>,
    refresh_token: Result<Vec<u8>, EncryptError>,
) -> Result<StravaAuthRowView, EncryptError> {
    match access_token {
        Err(error) => Err(error),
        Ok(access_token) => match refresh_token {
            Err(error) => Err(error),
            Ok(refresh_token) => Ok(
                StravaAuthRowView {
                    id: 1,
                    expires_at,
                    access_token: access_token@,
                    refresh_token: refresh_token@,
                },
            ),
        },
    }
}

/// A result with its row as a view.
pub open spec fn row_view(row: Result<StravaAuthRow, EncryptError>) -> Result<
    StravaAuthRowView,
    EncryptError,
> {
    match row {
        Ok(row) => Ok(row@),
        Err(error) => Err(error),
    }
}

/// Makes the credential's row of what the sealing of its two tokens gave.
pub fn strava_auth_row(
    expires_at: u64,
    access_token: Result<Vec<u8>, EncryptError>,
    refresh_token: Result<Vec<u8>, EncryptError>,
) -> (row: Result<StravaAuthRow, EncryptError>)
    ensures
        row_view(row) == sealed_row(expires_at, access_token, refresh_token),
{
    match access_token {
        Err(error) => Err(error),
        Ok(access_token) => match refresh_token {
            Err(error) => Err(error),
            Ok(refresh_token) => Ok(
                StravaAuthRow { id: 1, expires_at, access_token, refresh_token },
            ),
        },
    }
}

} // verus!
