use vstd::prelude::*;

use crate::AccountKey;

verus! {

/// Longest title, in UTF-8 bytes.
pub const MAX_TITLE_LEN: usize = 100;

/// Longest description, in UTF-8 bytes.
pub const MAX_DESCRIPTION_LEN: usize = 1000;

/// A governance proposal and its tally.
#[derive(Clone, Debug, PartialEq, Eq)]
pub struct Proposal {
    pub id: u64,
    pub title: String,
    pub description: String,
    pub proposer: AccountKey,
    pub votes_for: u64,
    pub votes_against: u64,
    pub total_votes: u64,
    pub created_at: i64,
    pub voting_ends_at: i64,
    pub executed: bool,
    /// Least total voting power for the proposal to be executable.
    pub min_voting_power: u64,
}

#[derive(Clone, Copy, Debug, PartialEq, Eq, Structural)]
pub enum VoteType {
    For,
    Against,
}

/// One user's vote on one proposal; a voting power of zero means not cast yet.
#[derive(Clone, Copy, Debug, PartialEq, Eq)]
pub struct Vote {
    pub user: AccountKey,
    pub proposal: AccountKey,
    pub vote_type: VoteType,
    pub voting_power: u64,
    pub voted_at: i64,
}

#[derive(Clone, Copy, Debug, PartialEq, Eq, Structural)]
pub enum JdhChainError {
    TitleTooLong,
    DescriptionTooLong,
    VotingClosed,
    AlreadyVoted,
    InsufficientVotingPower,
    VotingStillOpen,
    AlreadyExecuted,
    NotPassed,
    QuorumNotMet,
    ArithmeticOverflow,
}

/// Length of `s` in UTF-8 bytes.
pub open spec fn byte_len(s: Seq<char>) -> nat {
    vstd::utf8::encode_utf8(s).len()
}

impl Proposal {
    /// The total is the sum of the two sides.
    pub open spec fn wf(&self) -> bool {
        self.total_votes == self.votes_for + self.votes_against
    }
}

impl Vote {
    /// The record of a user who has not voted on `proposal` yet.
    pub fn empty(user: AccountKey, proposal: AccountKey) -> (r: Vote)
        ensures
            r == (Vote { user, proposal, vote_type: VoteType::For, voting_power: 0, voted_at: 0 }),
    {
        Vote { user, proposal, vote_type: VoteType::For, voting_power: 0, voted_at: 0 }
    }
}

/// What `create_proposal` does: the new proposal, or the error.
pub open spec fn create_outcome(
    id: u64,
    title: String,
    description: String,
    proposer: AccountKey,
    voting_duration: i64,
    min_voting_power: u64,
    now: i64,
) -> Result<Proposal, JdhChainError> {
    if byte_len(title@) > MAX_TITLE_LEN {
        Err(JdhChainError::TitleTooLong)
    } else if byte_len(description@) > MAX_DESCRIPTION_LEN {
        Err(JdhChainError::DescriptionTooLong)
    } else if now + voting_duration > i64::MAX || now + voting_duration < i64::MIN {
        Err(JdhChainError::ArithmeticOverflow)
    } else {
        Ok(
            Proposal {
                id,
                title,
                description,
                proposer,
                votes_for: 0,
                votes_against: 0,
                total_votes: 0,
                created_at: now,
                voting_ends_at: (now + voting_duration) as i64,
                executed: false,
                min_voting_power,
            },
        )
    }
}

/// `p` with `power` added to the side `vote_type` and to the total.
pub open spec fn tallied(p: Proposal, vote_type: VoteType, power: u64) -> Proposal {
    match vote_type {
        VoteType::For => Proposal {
            votes_for: (p.votes_for + power) as u64,
            total_votes: (p.total_votes + power) as u64,
            ..p
        },
        VoteType::Against => Proposal {
            votes_against: (p.votes_against + power) as u64,
            total_votes: (p.total_votes + power) as u64,
            ..p
        },
    }
}

/// What `vote` does: the new proposal and vote record, or the error. `balance` is the
/// voter's token balance, which is checked but not spent; a vote carries positive power.
/// The cast record names `voter` and `proposal_key`.
pub open spec fn vote_outcome(
    p: Proposal,
    v: Vote,
    voter: AccountKey,
    proposal_key: AccountKey,
    vote_type: VoteType,
    voting_power: u64,
    balance: u64,
    now: i64,
) -> Result<(Proposal, Vote), JdhChainError> {
    if now >= p.voting_ends_at {
        Err(JdhChainError::VotingClosed)
    } else if v.voting_power != 0 {
        Err(JdhChainError::AlreadyVoted)
    } else if voting_power == 0 || balance < voting_power {
        Err(JdhChainError::InsufficientVotingPower)
    } else if (match vote_type {
        VoteType::For => p.votes_for + voting_power > u64::MAX,
        VoteType::Against => p.votes_against + voting_power > u64::MAX,
    }) || p.total_votes + voting_power > u64::MAX {
        Err(JdhChainError::ArithmeticOverflow)
    } else {
        Ok(
            (
                tallied(p, vote_type, voting_power),
                Vote { user: voter, proposal: proposal_key, vote_type, voting_power, voted_at: now },
            ),
        )
    }
}

/// What `execute_proposal` does: the executed proposal, or the error.
pub open spec fn execute_outcome(p: Proposal, now: i64) -> Result<Proposal, JdhChainError> {
    if now < p.voting_ends_at {
        Err(JdhChainError::VotingStillOpen)
    } else if p.executed {
        Err(JdhChainError::AlreadyExecuted)
    } else if p.votes_for <= p.votes_against {
        Err(JdhChainError::NotPassed)
    } else if p.total_votes < p.min_voting_power {
        Err(JdhChainError::QuorumNotMet)
    } else {
        Ok(Proposal { executed: true, ..p })
    }
}

/// Opens a proposal whose voting ends `voting_duration` seconds after `now`.
pub fn create_proposal(
    id: u64,
    title: String,
    description: String,
    proposer: AccountKey,
    voting_duration: i64,
    min_voting_power: u64,
    now: i64,
) -> (r: Result<Proposal, JdhChainError>)
    ensures
        r == create_outcome(id, title, description, proposer, voting_duration, min_voting_power, now),
{
    if title.as_str().as_bytes().len() > MAX_TITLE_LEN {
        return Err(JdhChainError::TitleTooLong);
    }
    if description.as_str().as_bytes().len() > MAX_DESCRIPTION_LEN {
        return Err(JdhChainError::DescriptionTooLong);
    }
    let voting_ends_at = match now.checked_add(voting_duration) {
        Some(v) => v,
        None => return Err(JdhChainError::ArithmeticOverflow),
    };
    Ok(
        Proposal {
            id,
            title,
            description,
            proposer,
            votes_for: 0,
            votes_against: 0,
            total_votes: 0,
            created_at: now,
            voting_ends_at,
            executed: false,
            min_voting_power,
        },
    )
}

/// Casts `voter`'s one vote on the proposal at `proposal_key` with a positive
/// `voting_power`, which may not exceed their token `balance`, while voting is open.
pub fn vote(
    proposal: &mut Proposal,
    vote_account: &mut Vote,
    voter: AccountKey,
    proposal_key: AccountKey,
    vote_type: VoteType,
    voting_power: u64,
    balance: u64,
    now: i64,
) -> (r: Result<(), JdhChainError>)
    ensures
        match vote_outcome(
            *old(proposal),
            *old(vote_account),
            voter,
            proposal_key,
            vote_type,
            voting_power,
            balance,
            now,
        ) {
            Ok((p, v)) => r is Ok && *final(proposal) == p && *final(vote_account) == v,
            Err(e) => r == Err::<(), JdhChainError>(e) && *final(proposal) == *old(proposal)
                && *final(vote_account) == *old(vote_account),
        },
{
    if now >= proposal.voting_ends_at {
        return Err(JdhChainError::VotingClosed);
    }
    if vote_account.voting_power != 0 {
        return Err(JdhChainError::AlreadyVoted);
    }
    if voting_power == 0 || balance < voting_power {
        return Err(JdhChainError::InsufficientVotingPower);
    }
    let new_side = match vote_type {
        VoteType::For => proposal.votes_for.checked_add(voting_power),
        VoteType::Against => proposal.votes_against.checked_add(voting_power),
    };
    let new_side = match new_side {
        Some(v) => v,
        None => return Err(JdhChainError::ArithmeticOverflow),
    };
    let new_total = match proposal.total_votes.checked_add(voting_power) {
        Some(v) => v,
        None => return Err(JdhChainError::ArithmeticOverflow),
    };
    *vote_account = Vote { user: voter, proposal: proposal_key, vote_type, voting_power, voted_at: now };
    match vote_type {
        VoteType::For => proposal.votes_for = new_side,
        VoteType::Against => proposal.votes_against = new_side,
    }
    proposal.total_votes = new_total;
    Ok(())
}

/// Marks a proposal executed once voting has ended, if it passed on margin and met its
/// quorum.
pub fn execute_proposal(proposal: &mut Proposal, now: i64) -> (r: Result<(), JdhChainError>)
    ensures
        match execute_outcome(*old(proposal), now) {
            Ok(p) => r is Ok && *final(proposal) == p,
            Err(e) => r == Err::<(), JdhChainError>(e) && *final(proposal) == *old(proposal),
        },
{
    if now < proposal.voting_ends_at {
        return Err(JdhChainError::VotingStillOpen);
    }
    if proposal.executed {
        return Err(JdhChainError::AlreadyExecuted);
    }
    if proposal.votes_for <= proposal.votes_against {
        return Err(JdhChainError::NotPassed);
    }
    if proposal.total_votes < proposal.min_voting_power {
        return Err(JdhChainError::QuorumNotMet);
    }
    proposal.executed = true;
    Ok(())
}

/// Every proposal's total is the sum of its two sides: a new proposal starts so, and a
/// successful vote or execution keeps it so. Neither undoes an execution, and a cast vote
/// carries positive power.
pub proof fn lemma_tally_consistent(
    p: Proposal,
    v: Vote,
    voter: AccountKey,
    proposal_key: AccountKey,
    vote_type: VoteType,
    voting_power: u64,
    balance: u64,
    now: i64,
)
    requires
        p.wf(),
    ensures
        vote_outcome(p, v, voter, proposal_key, vote_type, voting_power, balance, now) matches Ok(
            (p2, v2),
        ) ==> p2.wf() && p2.executed == p.executed && v2.voting_power > 0,
        execute_outcome(p, now) matches Ok(p2) ==> p2.wf() && p2.executed,
{
}

/// A new proposal has an empty, consistent tally, and one is created whenever the title
/// and description fit and the deadline is within the range of timestamps.
pub proof fn lemma_created_consistent(
    id: u64,
    title: String,
    description: String,
    proposer: AccountKey,
    voting_duration: i64,
    min_voting_power: u64,
    now: i64,
)
    ensures
        create_outcome(id, title, description, proposer, voting_duration, min_voting_power, now) matches Ok(
            p,
        ) ==> p.wf() && p.votes_for == 0 && p.votes_against == 0 && p.total_votes == 0
            && !p.executed,
        byte_len(title@) <= MAX_TITLE_LEN && byte_len(description@) <= MAX_DESCRIPTION_LEN
            && i64::MIN <= now + voting_duration <= i64::MAX ==> create_outcome(
            id,
            title,
            description,
            proposer,
            voting_duration,
            min_voting_power,
            now,
        ) is Ok,
{
}

/// Once a vote has been cast on a record, a second vote on it fails, whatever it claims,
/// leaving the tally as it was; while voting is open it fails with `AlreadyVoted`.
pub proof fn lemma_second_vote_rejected(
    p: Proposal,
    v: Vote,
    voter: AccountKey,
    proposal_key: AccountKey,
    first_type: VoteType,
    first_power: u64,
    first_balance: u64,
    first_at: i64,
    second_type: VoteType,
    second_power: u64,
    second_balance: u64,
    second_at: i64,
)
    requires
        vote_outcome(p, v, voter, proposal_key, first_type, first_power, first_balance, first_at) is Ok,
    ensures
        ({
            let (p1, v1) = vote_outcome(
                p,
                v,
                voter,
                proposal_key,
                first_type,
                first_power,
                first_balance,
                first_at,
            )->Ok_0;
            &&& vote_outcome(
                p1,
                v1,
                voter,
                proposal_key,
                second_type,
                second_power,
                second_balance,
                second_at,
            ) is Err
            &&& second_at < p.voting_ends_at ==> vote_outcome(
                p1,
                v1,
                voter,
                proposal_key,
                second_type,
                second_power,
                second_balance,
                second_at,
            ) == Err::<(Proposal, Vote), JdhChainError>(JdhChainError::AlreadyVoted)
        }),
{
}

} // verus!
