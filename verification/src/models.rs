//! Request bodies and API errors of the HTTP interface.
use vstd::prelude::*;

verus! {

/// Body of `POST /repos/{repo_id}/contributors`.
pub struct CreateContributorRequest {
    /// GitHub username of the contributor
    pub github_username: String,
    /// Ethereum wallet address that receives USDC payouts
    pub wallet_address: String,
}

/// Body of `PUT /repos/{id}/delegation`.
pub struct UpdateDelegationRequest {
    /// ERC-7715 delegation hex string obtained from MetaMask delegation toolkit
    pub delegation_hex: String,
}

/// An error answered by an API route.
#[derive(Debug)]
pub enum AppError {
    /// The addressed record does not exist (HTTP 404).
    NotFound(String),
    /// The database failed (HTTP 500).
    Database(String),
}

/// The message "`what` `id` not found".
pub open spec fn not_found_text(what: Seq<char>, id: Seq<char>) -> Seq<char> {
    what + " "@ + id + " not found"@
}

/// The error for a record `what` with the id `id` that does not exist,
/// such as "Repo 5f0c… not found".
pub fn not_found(what: &str, id: &str) -> (res: AppError)
    ensures
        res matches AppError::NotFound(m) && m@ == not_found_text(what@, id@),
{
    let mut m = String::from_str(what);
    m.append(" ");
    m.append(id);
    m.append(" not found");
    AppError::NotFound(m)
}

/// The check `add_contributor` makes before inserting: the repository must
/// be counted at least once; a failed count reads as zero.
pub fn require_repo_counted(count: Option<i64>, repo_id: &str) -> (res: Result<(), AppError>)
    ensures
        res is Ok <==> (count matches Some(c) && c != 0),
        res matches Err(e) ==> (e matches AppError::NotFound(m) && m@ == not_found_text(
            "Repo"@,
            repo_id@,
        )),
{
    let c = match count {
        Some(c) => c,
        None => 0,
    };
    if c == 0 {
        return Err(not_found("Repo", repo_id));
    }
    Ok(())
}

/// The check `update_delegation` makes after its update: some row must have
/// been changed, else the repository does not exist.
pub fn require_rows_updated(rows_affected: u64, repo_id: &str) -> (res: Result<(), AppError>)
    ensures
        res is Ok <==> rows_affected != 0,
        res matches Err(e) ==> (e matches AppError::NotFound(m) && m@ == not_found_text(
            "Repo"@,
            repo_id@,
        )),
{
    if rows_affected == 0 {
        return Err(not_found("Repo", repo_id));
    }
    Ok(())
}

/// A looked-up record, or the "not found" error for it.
pub fn require_found<T>(row: Option<T>, what: &str, id: &str) -> (res: Result<T, AppError>)
    ensures
        row matches Some(r) ==> res == Ok::<T, AppError>(r),
        row is None ==> (res matches Err(e) && e matches AppError::NotFound(m) && m@
            == not_found_text(what@, id@)),
{
    match row {
        Some(r) => Ok(r),
        None => Err(not_found(what, id)),
    }
}

} // verus!
