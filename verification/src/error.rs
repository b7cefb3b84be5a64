use vstd::prelude::*;

verus! {

/// Errors raised by the game rules.
#[derive(Debug, Clone)]
pub enum DomainError {
    /// A province lacks gold, troops, rice or population for an action.
    InsufficientResource(String),
    /// A province or warlord that an action names does not exist.
    NotFound(String),
    /// The two provinces of an action are not adjacent.
    NotAdjacent,
    /// Goods can only be sent to a province of the same warlord.
    NotOwnProvince,
    /// The province named is not the one whose turn it is.
    NotYourTurn,
    /// The game is not in a state that allows the action.
    InvalidState(String),
}

impl DomainError {
    /// The text of the error as shown to the player.
    pub fn message(&self) -> (r: String)
        ensures
            r@ == self.spec_message(),
    {
        match self {
            DomainError::InsufficientResource(m) => {
                let mut s = String::from_str("資源が不足しています: ");
                s.append(m.as_str());
                s
            },
            DomainError::NotFound(m) => m.clone(),
            DomainError::NotAdjacent => String::from_str("隣接していません"),
            DomainError::NotOwnProvince => String::from_str("自領ではありません"),
            DomainError::NotYourTurn => String::from_str("現在の手番ではありません"),
            DomainError::InvalidState(m) => m.clone(),
        }
    }

    pub open spec fn spec_message(&self) -> Seq<char> {
        match self {
            DomainError::InsufficientResource(m) => "資源が不足しています: "@ + m@,
            DomainError::NotFound(m) => m@,
            DomainError::NotAdjacent => "隣接していません"@,
            DomainError::NotOwnProvince => "自領ではありません"@,
            DomainError::NotYourTurn => "現在の手番ではありません"@,
            DomainError::InvalidState(m) => m@,
        }
    }
}

/// `e` is an `InsufficientResource` error whose text is `msg`.
pub open spec fn is_insufficient(e: DomainError, msg: Seq<char>) -> bool {
    e matches DomainError::InsufficientResource(m) && m@ == msg
}

/// `e` is an `InvalidState` error whose text is `msg`.
pub open spec fn is_invalid_state(e: DomainError, msg: Seq<char>) -> bool {
    e matches DomainError::InvalidState(m) && m@ == msg
}

/// `e` is a `NotFound` error whose text is `msg`.
pub open spec fn is_not_found(e: DomainError, msg: Seq<char>) -> bool {
    e matches DomainError::NotFound(m) && m@ == msg
}

} // verus!
