//! The stable function-identifier table exposed to the ABI dispatch
//! layer: every exported operation has a fixed small integer, so
//! cross-boundary callers resolve entry points by numeric id rather
//! than by name. Numeric ranges are reserved by subsystem — system
//! control from 1, version operations from 101, library operations
//! from 201 — so each can grow without collision; ids up to 1000 are
//! reserved.

use vstd::prelude::*;

verus! {

/// Ids of the exported functions.
#[non_exhaustive]
#[derive(Copy, Clone, PartialEq, Eq, Structural, Debug)]
pub enum FnId {
    SysLock,
    SysTryLock,
    SysUnlock,
    SysShutdown,
    SysPanic,
    SysHasFunction,
    SysGetFunction,
    SysGetSyncHandler,
    SysSetSyncHandler,
    VersionConstructShort,
    VersionConstructLong,
    VersionConstructFull,
    VersionConstructFromString,
    VersionRepresentationIsValid,
    VersionGetShortRepresentation,
    VersionGetShortRepresentationLength,
    VersionGetLongRepresentation,
    VersionGetLongRepresentationLength,
    VersionGetFullRepresentation,
    VersionGetFullRepresentationLength,
    VersionCompare,
    VersionCompareWeak,
    VersionCompareStrong,
    VersionIsCompatible,
    LibraryRegisterLoader,
    LibraryUnregisterLoader,
    LibraryGetNumLoaders,
    LibraryGetLibraryTypes,
    LibraryGetLoaderHandle,
    LibraryTypeExists,
    LibraryLibraryExists,
    LibraryUnsafeCreateLibraryHandle,
    LibraryUnsafeRemoveLibraryHandle,
    LibraryUnsafeLinkLibrary,
    LibraryUnsafeGetLoaderLibraryHandle,
    LibraryUnsafeGetLoaderHandle,
    LibraryUnsafeGetLoaderInterface,
    LibraryLoad,
    LibraryUnload,
    LibraryGetDataSymbol,
    LibraryGetFunctionSymbol,
}

impl FnId {
    /// The fixed numeric id of this operation.
    pub open spec fn id_spec(self) -> i32 {
        match self {
            FnId::SysLock => 1,
            FnId::SysTryLock => 2,
            FnId::SysUnlock => 3,
            FnId::SysShutdown => 4,
            FnId::SysPanic => 5,
            FnId::SysHasFunction => 6,
            FnId::SysGetFunction => 7,
            FnId::SysGetSyncHandler => 8,
            FnId::SysSetSyncHandler => 9,
            FnId::VersionConstructShort => 101,
            FnId::VersionConstructLong => 102,
            FnId::VersionConstructFull => 103,
            FnId::VersionConstructFromString => 104,
            FnId::VersionRepresentationIsValid => 105,
            FnId::VersionGetShortRepresentation => 106,
            FnId::VersionGetShortRepresentationLength => 107,
            FnId::VersionGetLongRepresentation => 108,
            FnId::VersionGetLongRepresentationLength => 109,
            FnId::VersionGetFullRepresentation => 110,
            FnId::VersionGetFullRepresentationLength => 111,
            FnId::VersionCompare => 112,
            FnId::VersionCompareWeak => 113,
            FnId::VersionCompareStrong => 114,
            FnId::VersionIsCompatible => 115,
            FnId::LibraryRegisterLoader => 201,
            FnId::LibraryUnregisterLoader => 202,
            FnId::LibraryGetNumLoaders => 203,
            FnId::LibraryGetLibraryTypes => 204,
            FnId::LibraryGetLoaderHandle => 205,
            FnId::LibraryTypeExists => 206,
            FnId::LibraryLibraryExists => 207,
            FnId::LibraryUnsafeCreateLibraryHandle => 208,
            FnId::LibraryUnsafeRemoveLibraryHandle => 209,
            FnId::LibraryUnsafeLinkLibrary => 210,
            FnId::LibraryUnsafeGetLoaderLibraryHandle => 211,
            FnId::LibraryUnsafeGetLoaderHandle => 212,
            FnId::LibraryUnsafeGetLoaderInterface => 213,
            FnId::LibraryLoad => 214,
            FnId::LibraryUnload => 215,
            FnId::LibraryGetDataSymbol => 216,
            FnId::LibraryGetFunctionSymbol => 217,
        }
    }

    /// The fixed numeric id of this operation.
    pub fn id(self) -> (r: i32)
        ensures
            r == self.id_spec(),
    {
        match self {
            FnId::SysLock => 1,
            FnId::SysTryLock => 2,
            FnId::SysUnlock => 3,
            FnId::SysShutdown => 4,
            FnId::SysPanic => 5,
            FnId::SysHasFunction => 6,
            FnId::SysGetFunction => 7,
            FnId::SysGetSyncHandler => 8,
            FnId::SysSetSyncHandler => 9,
            FnId::VersionConstructShort => 101,
            FnId::VersionConstructLong => 102,
            FnId::VersionConstructFull => 103,
            FnId::VersionConstructFromString => 104,
            FnId::VersionRepresentationIsValid => 105,
            FnId::VersionGetShortRepresentation => 106,
            FnId::VersionGetShortRepresentationLength => 107,
            FnId::VersionGetLongRepresentation => 108,
            FnId::VersionGetLongRepresentationLength => 109,
            FnId::VersionGetFullRepresentation => 110,
            FnId::VersionGetFullRepresentationLength => 111,
            FnId::VersionCompare => 112,
            FnId::VersionCompareWeak => 113,
            FnId::VersionCompareStrong => 114,
            FnId::VersionIsCompatible => 115,
            FnId::LibraryRegisterLoader => 201,
            FnId::LibraryUnregisterLoader => 202,
            FnId::LibraryGetNumLoaders => 203,
            FnId::LibraryGetLibraryTypes => 204,
            FnId::LibraryGetLoaderHandle => 205,
            FnId::LibraryTypeExists => 206,
            FnId::LibraryLibraryExists => 207,
            FnId::LibraryUnsafeCreateLibraryHandle => 208,
            FnId::LibraryUnsafeRemoveLibraryHandle => 209,
            FnId::LibraryUnsafeLinkLibrary => 210,
            FnId::LibraryUnsafeGetLoaderLibraryHandle => 211,
            FnId::LibraryUnsafeGetLoaderHandle => 212,
            FnId::LibraryUnsafeGetLoaderInterface => 213,
            FnId::LibraryLoad => 214,
            FnId::LibraryUnload => 215,
            FnId::LibraryGetDataSymbol => 216,
            FnId::LibraryGetFunctionSymbol => 217,
        }
    }

    /// The operation a numeric id names, if any.
    pub open spec fn from_id_spec(id: i32) -> Option<FnId> {
        if id == 1 {
            Some(FnId::SysLock)
        } else if id == 2 {
            Some(FnId::SysTryLock)
        } else if id == 3 {
            Some(FnId::SysUnlock)
        } else if id == 4 {
            Some(FnId::SysShutdown)
        } else if id == 5 {
            Some(FnId::SysPanic)
        } else if id == 6 {
            Some(FnId::SysHasFunction)
        } else if id == 7 {
            Some(FnId::SysGetFunction)
        } else if id == 8 {
            Some(FnId::SysGetSyncHandler)
        } else if id == 9 {
            Some(FnId::SysSetSyncHandler)
        } else if id == 101 {
            Some(FnId::VersionConstructShort)
        } else if id == 102 {
            Some(FnId::VersionConstructLong)
        } else if id == 103 {
            Some(FnId::VersionConstructFull)
        } else if id == 104 {
            Some(FnId::VersionConstructFromString)
        } else if id == 105 {
            Some(FnId::VersionRepresentationIsValid)
        } else if id == 106 {
            Some(FnId::VersionGetShortRepresentation)
        } else if id == 107 {
            Some(FnId::VersionGetShortRepresentationLength)
        } else if id == 108 {
            Some(FnId::VersionGetLongRepresentation)
        } else if id == 109 {
            Some(FnId::VersionGetLongRepresentationLength)
        } else if id == 110 {
            Some(FnId::VersionGetFullRepresentation)
        } else if id == 111 {
            Some(FnId::VersionGetFullRepresentationLength)
        } else if id == 112 {
            Some(FnId::VersionCompare)
        } else if id == 113 {
            Some(FnId::VersionCompareWeak)
        } else if id == 114 {
            Some(FnId::VersionCompareStrong)
        } else if id == 115 {
            Some(FnId::VersionIsCompatible)
        } else if id == 201 {
            Some(FnId::LibraryRegisterLoader)
        } else if id == 202 {
            Some(FnId::LibraryUnregisterLoader)
        } else if id == 203 {
            Some(FnId::LibraryGetNumLoaders)
        } else if id == 204 {
            Some(FnId::LibraryGetLibraryTypes)
        } else if id == 205 {
            Some(FnId::LibraryGetLoaderHandle)
        } else if id == 206 {
            Some(FnId::LibraryTypeExists)
        } else if id == 207 {
            Some(FnId::LibraryLibraryExists)
        } else if id == 208 {
            Some(FnId::LibraryUnsafeCreateLibraryHandle)
        } else if id == 209 {
            Some(FnId::LibraryUnsafeRemoveLibraryHandle)
        } else if id == 210 {
            Some(FnId::LibraryUnsafeLinkLibrary)
        } else if id == 211 {
            Some(FnId::LibraryUnsafeGetLoaderLibraryHandle)
        } else if id == 212 {
            Some(FnId::LibraryUnsafeGetLoaderHandle)
        } else if id == 213 {
            Some(FnId::LibraryUnsafeGetLoaderInterface)
        } else if id == 214 {
            Some(FnId::LibraryLoad)
        } else if id == 215 {
            Some(FnId::LibraryUnload)
        } else if id == 216 {
            Some(FnId::LibraryGetDataSymbol)
        } else if id == 217 {
            Some(FnId::LibraryGetFunctionSymbol)
        } else {
            None
        }
    }

    /// Resolve a numeric id back to the operation it names; `None` for
    /// every unassigned id.
    pub fn from_id(id: i32) -> (r: Option<FnId>)
        ensures
            r == FnId::from_id_spec(id),
    {
        if 1 <= id && id <= 9 {
            match id {
                1 => Some(FnId::SysLock),
                2 => Some(FnId::SysTryLock),
                3 => Some(FnId::SysUnlock),
                4 => Some(FnId::SysShutdown),
                5 => Some(FnId::SysPanic),
                6 => Some(FnId::SysHasFunction),
                7 => Some(FnId::SysGetFunction),
                8 => Some(FnId::SysGetSyncHandler),
                _ => Some(FnId::SysSetSyncHandler),
            }
        } else if 101 <= id && id <= 115 {
            match id {
                101 => Some(FnId::VersionConstructShort),
                102 => Some(FnId::VersionConstructLong),
                103 => Some(FnId::VersionConstructFull),
                104 => Some(FnId::VersionConstructFromString),
                105 => Some(FnId::VersionRepresentationIsValid),
                106 => Some(FnId::VersionGetShortRepresentation),
                107 => Some(FnId::VersionGetShortRepresentationLength),
                108 => Some(FnId::VersionGetLongRepresentation),
                109 => Some(FnId::VersionGetLongRepresentationLength),
                110 => Some(FnId::VersionGetFullRepresentation),
                111 => Some(FnId::VersionGetFullRepresentationLength),
                112 => Some(FnId::VersionCompare),
                113 => Some(FnId::VersionCompareWeak),
                114 => Some(FnId::VersionCompareStrong),
                _ => Some(FnId::VersionIsCompatible),
            }
        } else if 201 <= id && id <= 217 {
            match id {
                201 => Some(FnId::LibraryRegisterLoader),
                202 => Some(FnId::LibraryUnregisterLoader),
                203 => Some(FnId::LibraryGetNumLoaders),
                204 => Some(FnId::LibraryGetLibraryTypes),
                205 => Some(FnId::LibraryGetLoaderHandle),
                206 => Some(FnId::LibraryTypeExists),
                207 => Some(FnId::LibraryLibraryExists),
                208 => Some(FnId::LibraryUnsafeCreateLibraryHandle),
                209 => Some(FnId::LibraryUnsafeRemoveLibraryHandle),
                210 => Some(FnId::LibraryUnsafeLinkLibrary),
                211 => Some(FnId::LibraryUnsafeGetLoaderLibraryHandle),
                212 => Some(FnId::LibraryUnsafeGetLoaderHandle),
                213 => Some(FnId::LibraryUnsafeGetLoaderInterface),
                214 => Some(FnId::LibraryLoad),
                215 => Some(FnId::LibraryUnload),
                216 => Some(FnId::LibraryGetDataSymbol),
                _ => Some(FnId::LibraryGetFunctionSymbol),
            }
        } else {
            None
        }
    }
}

/// Law: resolving an operation's id yields the operation back, so the
/// id assignment is injective: no two operations share a number.
pub proof fn lemma_fn_id_round_trip(f: FnId)
    ensures
        FnId::from_id_spec(f.id_spec()) == Some(f),
{
}

/// Law: distinct numeric ids never resolve to the same operation, and
/// an id that resolves at all is the id of what it resolves to.
pub proof fn lemma_from_id_inverse(id: i32)
    ensures
        FnId::from_id_spec(id) matches Some(f) ==> f.id_spec() == id,
{
}

/// Law: every assigned id lies in the range its subsystem reserves:
/// system control in 1 to 100, version operations in 101 to 200,
/// library operations in 201 to 1000.
pub proof fn lemma_fn_id_ranges(f: FnId)
    ensures
        1 <= f.id_spec() <= 1000,
{
}

} // verus!
