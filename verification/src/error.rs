use vstd::prelude::*;

verus! {

/// Why an operation was refused. A refused operation changes nothing.
#[derive(Clone, Copy, Debug, PartialEq, Eq, Structural)]
pub enum ErrorCode {
    /// The randomness account presented is not the one that was committed.
    WrongRandomnessHandle,
    /// The sale window has not closed yet.
    SaleNotComplete,
    /// The current slot lies outside the sale window.
    SaleClosed,
    /// The caller is not the lottery's authority.
    NotAuthorized,
    /// The randomness request was not made in the slot just before the commit.
    RandomnessStale,
    /// The oracle has not resolved the request for the current slot.
    RandomnessPending,
    /// No winner has been drawn yet.
    WinnerNotChosen,
    /// A winner has already been drawn.
    WinnerAlreadyChosen,
    /// The ticket's membership of its collection is not verified.
    UnverifiedTicket,
    /// The ticket is not the winning one, or the caller does not hold it.
    WrongTicket,
    /// No ticket was sold, so there is nothing to draw from.
    NoTickets,
    /// The ticket does not belong to this lottery's collection.
    WrongCollection,
}

/// The families that the errors fall into.
#[derive(Clone, Copy, Debug, PartialEq, Eq, Structural)]
pub enum ErrorKind {
    Authorization,
    Timing,
    StateConflict,
    Integrity,
    Transient,
}

impl ErrorCode {
    /// The family of each error.
    pub open spec fn kind_of(self) -> ErrorKind {
        match self {
            ErrorCode::NotAuthorized => ErrorKind::Authorization,
            ErrorCode::SaleClosed | ErrorCode::SaleNotComplete => ErrorKind::Timing,
            ErrorCode::WinnerAlreadyChosen | ErrorCode::NoTickets | ErrorCode::WinnerNotChosen =>
                ErrorKind::StateConflict,
            ErrorCode::RandomnessStale
            | ErrorCode::WrongRandomnessHandle
            | ErrorCode::UnverifiedTicket
            | ErrorCode::WrongCollection
            | ErrorCode::WrongTicket => ErrorKind::Integrity,
            ErrorCode::RandomnessPending => ErrorKind::Transient,
        }
    }

    /// The text shown to a user for each error.
    pub open spec fn message_text(self) -> Seq<char> {
        match self {
            ErrorCode::WrongRandomnessHandle => "Incorrect randomness account"@,
            ErrorCode::SaleNotComplete => "Lottery not completed"@,
            ErrorCode::SaleClosed => "Lottery is not open"@,
            ErrorCode::NotAuthorized => "Not authorized"@,
            ErrorCode::RandomnessStale => "Randomness already revealed"@,
            ErrorCode::RandomnessPending => "Randomness not resolved"@,
            ErrorCode::WinnerNotChosen => "Winner not chosen"@,
            ErrorCode::WinnerAlreadyChosen => "Winner already chosen"@,
            ErrorCode::UnverifiedTicket => "Ticket is not verified"@,
            ErrorCode::WrongTicket => "Incorrect ticket"@,
            ErrorCode::NoTickets => "No tickets sold"@,
            ErrorCode::WrongCollection => "Ticket has no collection"@,
        }
    }

    pub fn kind(&self) -> (r: ErrorKind)
        ensures
            r == self.kind_of(),
    {
        match self {
            ErrorCode::NotAuthorized => ErrorKind::Authorization,
            ErrorCode::SaleClosed | ErrorCode::SaleNotComplete => ErrorKind::Timing,
            ErrorCode::WinnerAlreadyChosen | ErrorCode::NoTickets | ErrorCode::WinnerNotChosen =>
                ErrorKind::StateConflict,
            ErrorCode::RandomnessStale
            | ErrorCode::WrongRandomnessHandle
            | ErrorCode::UnverifiedTicket
            | ErrorCode::WrongCollection
            | ErrorCode::WrongTicket => ErrorKind::Integrity,
            ErrorCode::RandomnessPending => ErrorKind::Transient,
        }
    }

    /// Whether calling again later, with nothing changed, can succeed. That
    /// holds of a pending randomness request and of nothing else.
    pub fn is_retryable(&self) -> (r: bool)
        ensures
            r == (self.kind_of() == ErrorKind::Transient),
            r == (*self == ErrorCode::RandomnessPending),
    {
        match self {
            ErrorCode::RandomnessPending => true,
            _ => false,
        }
    }

    pub fn message(&self) -> (r: &'static str)
        ensures
            r@ == self.message_text(),
    {
        match self {
            ErrorCode::WrongRandomnessHandle => "Incorrect randomness account",
            ErrorCode::SaleNotComplete => "Lottery not completed",
            ErrorCode::SaleClosed => "Lottery is not open",
            ErrorCode::NotAuthorized => "Not authorized",
            ErrorCode::RandomnessStale => "Randomness already revealed",
            ErrorCode::RandomnessPending => "Randomness not resolved",
            ErrorCode::WinnerNotChosen => "Winner not chosen",
            ErrorCode::WinnerAlreadyChosen => "Winner already chosen",
            ErrorCode::UnverifiedTicket => "Ticket is not verified",
            ErrorCode::WrongTicket => "Incorrect ticket",
            ErrorCode::NoTickets => "No tickets sold",
            ErrorCode::WrongCollection => "Ticket has no collection",
        }
    }
}

} // verus!
