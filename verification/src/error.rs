//! The errors of the library, and their views.

use vstd::prelude::*;

verus! {

/// Why a signer refused or failed.
#[derive(Debug, PartialEq, Eq)]
pub enum SignerError {
    Generic(String),
    SerializationError(String),
    InvalidHash,
}

/// The view of a `SignerError`.
pub enum SignerErrorView {
    Generic(Seq<char>),
    SerializationError(Seq<char>),
    InvalidHash,
}

impl View for SignerError {
    type V = SignerErrorView;

    open spec fn view(&self) -> SignerErrorView {
        match self {
            SignerError::Generic(text) => SignerErrorView::Generic(text@),
            SignerError::SerializationError(text) => SignerErrorView::SerializationError(text@),
            SignerError::InvalidHash => SignerErrorView::InvalidHash,
        }
    }
}

/// Why a wallet service refused or failed.
#[derive(Debug, PartialEq, Eq)]
pub enum ServiceError {
    Generic(String),
    InvalidInput(String),
    InvalidNodeId(String),
    InvalidPublicKey,
    InvalidVerifyingKey,
    InvalidDepositAddress,
    InvalidDepositAddressNetwork,
    InvalidOutputIndex,
    InvalidTransaction,
    InvalidSignatureShare,
    MissingTreeSignatures,
}

/// The view of a `ServiceError`.
pub enum ServiceErrorView {
    Generic(Seq<char>),
    InvalidInput(Seq<char>),
    InvalidNodeId(Seq<char>),
    InvalidPublicKey,
    InvalidVerifyingKey,
    InvalidDepositAddress,
    InvalidDepositAddressNetwork,
    InvalidOutputIndex,
    InvalidTransaction,
    InvalidSignatureShare,
    MissingTreeSignatures,
}

impl View for ServiceError {
    type V = ServiceErrorView;

    open spec fn view(&self) -> ServiceErrorView {
        match self {
            ServiceError::Generic(text) => ServiceErrorView::Generic(text@),
            ServiceError::InvalidInput(text) => ServiceErrorView::InvalidInput(text@),
            ServiceError::InvalidNodeId(text) => ServiceErrorView::InvalidNodeId(text@),
            ServiceError::InvalidPublicKey => ServiceErrorView::InvalidPublicKey,
            ServiceError::InvalidVerifyingKey => ServiceErrorView::InvalidVerifyingKey,
            ServiceError::InvalidDepositAddress => ServiceErrorView::InvalidDepositAddress,
            ServiceError::InvalidDepositAddressNetwork =>
                ServiceErrorView::InvalidDepositAddressNetwork,
            ServiceError::InvalidOutputIndex => ServiceErrorView::InvalidOutputIndex,
            ServiceError::InvalidTransaction => ServiceErrorView::InvalidTransaction,
            ServiceError::InvalidSignatureShare => ServiceErrorView::InvalidSignatureShare,
            ServiceError::MissingTreeSignatures => ServiceErrorView::MissingTreeSignatures,
        }
    }
}

/// Why a call to the service provider was refused or failed.
#[derive(Debug, PartialEq, Eq)]
pub enum ServiceProviderError {
    Generic(String),
    Serialization(String),
    ParseError(String),
}

/// The view of a `ServiceProviderError`.
pub enum ServiceProviderErrorView {
    Generic(Seq<char>),
    Serialization(Seq<char>),
    ParseError(Seq<char>),
}

impl View for ServiceProviderError {
    type V = ServiceProviderErrorView;

    open spec fn view(&self) -> ServiceProviderErrorView {
        match self {
            ServiceProviderError::Generic(text) => ServiceProviderErrorView::Generic(text@),
            ServiceProviderError::Serialization(text) =>
                ServiceProviderErrorView::Serialization(text@),
            ServiceProviderError::ParseError(text) => ServiceProviderErrorView::ParseError(text@),
        }
    }
}

impl Clone for ServiceProviderError {
    fn clone(&self) -> (copy: Self)
        ensures
            copy == *self,
    {
        match self {
            ServiceProviderError::Generic(text) => ServiceProviderError::Generic(text.clone()),
            ServiceProviderError::Serialization(text) =>
                ServiceProviderError::Serialization(text.clone()),
            ServiceProviderError::ParseError(text) =>
                ServiceProviderError::ParseError(text.clone()),
        }
    }
}

/// Why a call to the wallet's development kit was refused or failed.
#[derive(Debug, PartialEq, Eq)]
pub enum SdkError {
    Generic(String),
}

/// The view of an `SdkError`.
pub enum SdkErrorView {
    Generic(Seq<char>),
}

impl View for SdkError {
    type V = SdkErrorView;

    open spec fn view(&self) -> SdkErrorView {
        match self {
            SdkError::Generic(text) => SdkErrorView::Generic(text@),
        }
    }
}

/// Views keep errors apart: a service's errors have the same view only where they are of the same
/// kind, with the same text.
pub proof fn service_errors_are_told_apart(error: ServiceError)
    ensures
        error is Generic <==> error@ is Generic,
        error is InvalidInput <==> error@ is InvalidInput,
        error is InvalidNodeId <==> error@ is InvalidNodeId,
        error is InvalidPublicKey <==> error@ is InvalidPublicKey,
        error is InvalidVerifyingKey <==> error@ is InvalidVerifyingKey,
        error is InvalidDepositAddress <==> error@ is InvalidDepositAddress,
        error is InvalidDepositAddressNetwork <==> error@ is InvalidDepositAddressNetwork,
        error is InvalidOutputIndex <==> error@ is InvalidOutputIndex,
        error is InvalidTransaction <==> error@ is InvalidTransaction,
        error is InvalidSignatureShare <==> error@ is InvalidSignatureShare,
        error is MissingTreeSignatures <==> error@ is MissingTreeSignatures,
        error matches ServiceError::Generic(text) ==> error@ == ServiceErrorView::Generic(text@),
        error matches ServiceError::InvalidInput(text) ==> error@ == ServiceErrorView::InvalidInput(
            text@,
        ),
        error matches ServiceError::InvalidNodeId(text) ==> error@
            == ServiceErrorView::InvalidNodeId(text@),
{
}

/// Views keep the errors of signers and of the service provider apart, with their texts.
pub proof fn signer_errors_are_told_apart(signer: SignerError, provider: ServiceProviderError)
    ensures
        signer matches SignerError::Generic(text) ==> signer@ == SignerErrorView::Generic(text@),
        signer matches SignerError::SerializationError(text) ==> signer@
            == SignerErrorView::SerializationError(text@),
        signer is InvalidHash <==> signer@ is InvalidHash,
        provider matches ServiceProviderError::Generic(text) ==> provider@
            == ServiceProviderErrorView::Generic(text@),
        provider matches ServiceProviderError::Serialization(text) ==> provider@
            == ServiceProviderErrorView::Serialization(text@),
        provider matches ServiceProviderError::ParseError(text) ==> provider@
            == ServiceProviderErrorView::ParseError(text@),
{
}

} // verus!
