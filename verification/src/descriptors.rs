//! Normalized descriptor records for functions and data items, the fluent
//! builder that accumulates their optional fields, and the debug-info
//! registry they are registered into.

use vstd::prelude::*;

verus! {

/// The placeholder type attached to registered data variables.  This
/// pipeline never infers real types; every data variable gets the untyped
/// void placeholder.
#[derive(Clone, Copy, PartialEq, Eq, Structural, Debug)]
pub enum DataType {
    Void,
}

/// A normalized record describing one function: its name variants (all
/// derived from the same raw symbol), its address, and a return type that
/// this pipeline leaves permanently unset.
#[derive(Clone, Debug)]
pub struct FunctionDescriptor {
    pub short_name: Option<String>,
    pub full_name: Option<String>,
    pub raw_name: Option<String>,
    pub return_type: Option<DataType>,
    pub address: Option<u64>,
}

/// The mathematical value of a function descriptor.
pub struct FunctionDescriptorV {
    pub short_name: Option<Seq<char>>,
    pub full_name: Option<Seq<char>>,
    pub raw_name: Option<Seq<char>>,
    pub return_type: Option<DataType>,
    pub address: Option<u64>,
}

impl View for FunctionDescriptor {
    type V = FunctionDescriptorV;

    open spec fn view(&self) -> FunctionDescriptorV {
        FunctionDescriptorV {
            short_name: match self.short_name {
                Some(n) => Some(n@),
                None => None,
            },
            full_name: match self.full_name {
                Some(n) => Some(n@),
                None => None,
            },
            raw_name: match self.raw_name {
                Some(n) => Some(n@),
                None => None,
            },
            return_type: self.return_type,
            address: self.address,
        }
    }
}

/// A normalized record describing one data item: its address, the untyped
/// placeholder type, and an optional display name.
#[derive(Clone, Debug)]
pub struct DataDescriptor {
    pub address: u64,
    pub ty: DataType,
    pub name: Option<String>,
}

/// The mathematical value of a data descriptor.
pub struct DataDescriptorV {
    pub address: u64,
    pub ty: DataType,
    pub name: Option<Seq<char>>,
}

impl View for DataDescriptor {
    type V = DataDescriptorV;

    open spec fn view(&self) -> DataDescriptorV {
        DataDescriptorV {
            address: self.address,
            ty: self.ty,
            name: match self.name {
                Some(n) => Some(n@),
                None => None,
            },
        }
    }
}

/// Incremental, fluent construction of a function descriptor: each setter
/// fills one optional field and hands the builder back; `build` produces the
/// immutable descriptor with every unset field left empty.
pub struct DebugFunctionInfoBuilder {
    pub short_name: Option<String>,
    pub full_name: Option<String>,
    pub raw_name: Option<String>,
    pub return_type: Option<DataType>,
    pub address: Option<u64>,
}

impl DebugFunctionInfoBuilder {
    /// A builder with every field unset.
    #[must_use]
    pub fn new() -> (r: Self)
        ensures
            r.short_name is None,
            r.full_name is None,
            r.raw_name is None,
            r.return_type is None,
            r.address is None,
    {
        DebugFunctionInfoBuilder {
            short_name: None,
            full_name: None,
            raw_name: None,
            return_type: None,
            address: None,
        }
    }

    pub fn short_name(self, short_name: String) -> (r: Self)
        ensures
            r.short_name == Some(short_name),
            r.full_name == self.full_name,
            r.raw_name == self.raw_name,
            r.return_type == self.return_type,
            r.address == self.address,
    {
        DebugFunctionInfoBuilder { short_name: Some(short_name), ..self }
    }

    pub fn full_name(self, full_name: String) -> (r: Self)
        ensures
            r.full_name == Some(full_name),
            r.short_name == self.short_name,
            r.raw_name == self.raw_name,
            r.return_type == self.return_type,
            r.address == self.address,
    {
        DebugFunctionInfoBuilder { full_name: Some(full_name), ..self }
    }

    pub fn raw_name(self, raw_name: String) -> (r: Self)
        ensures
            r.raw_name == Some(raw_name),
            r.short_name == self.short_name,
            r.full_name == self.full_name,
            r.return_type == self.return_type,
            r.address == self.address,
    {
        DebugFunctionInfoBuilder { raw_name: Some(raw_name), ..self }
    }

    pub fn address(self, address: u64) -> (r: Self)
        ensures
            r.address == Some(address),
            r.short_name == self.short_name,
            r.full_name == self.full_name,
            r.raw_name == self.raw_name,
            r.return_type == self.return_type,
    {
        DebugFunctionInfoBuilder { address: Some(address), ..self }
    }

    /// Finalize: the descriptor carries exactly the accumulated fields.
    pub fn build(self) -> (r: FunctionDescriptor)
        ensures
            r.short_name == self.short_name,
            r.full_name == self.full_name,
            r.raw_name == self.raw_name,
            r.return_type == self.return_type,
            r.address == self.address,
    {
        FunctionDescriptor {
            short_name: self.short_name,
            full_name: self.full_name,
            raw_name: self.raw_name,
            return_type: self.return_type,
            address: self.address,
        }
    }
}

/// The mathematical value of the registry: the registered function and data
/// descriptors, each in registration order.
pub struct DebugInfoV {
    pub functions: Seq<FunctionDescriptorV>,
    pub data_variables: Seq<DataDescriptorV>,
}

/// The debug-info registry the pipeline registers descriptors into: the
/// functions and the data variables, each kept in registration order, with
/// no deduplication and no re-sorting.
pub struct DebugInfo {
    pub functions: Vec<FunctionDescriptor>,
    pub data_variables: Vec<DataDescriptor>,
}

impl View for DebugInfo {
    type V = DebugInfoV;

    open spec fn view(&self) -> DebugInfoV {
        DebugInfoV {
            functions: self.functions@.map_values(|f: FunctionDescriptor| f@),
            data_variables: self.data_variables@.map_values(|d: DataDescriptor| d@),
        }
    }
}

impl DebugInfo {
    /// An empty registry.
    pub fn new() -> (r: Self)
        ensures
            r@.functions == Seq::<FunctionDescriptorV>::empty(),
            r@.data_variables == Seq::<DataDescriptorV>::empty(),
    {
        let r = DebugInfo { functions: Vec::new(), data_variables: Vec::new() };
        proof {
            assert(r@.functions =~= Seq::<FunctionDescriptorV>::empty());
            assert(r@.data_variables =~= Seq::<DataDescriptorV>::empty());
        }
        r
    }

    /// Register one function descriptor, appended after everything already
    /// registered; data variables are untouched.
    pub fn add_function(&mut self, function: FunctionDescriptor)
        ensures
            final(self)@.functions == old(self)@.functions.push(function@),
            final(self)@.data_variables == old(self)@.data_variables,
    {
        self.functions.push(function);
        proof {
            assert(self@.functions =~= old(self)@.functions.push(
                self.functions@[self.functions@.len() - 1]@,
            ));
        }
    }

    /// Register one data variable, appended after everything already
    /// registered; functions are untouched.
    pub fn add_data_variable(&mut self, address: u64, ty: DataType, name: Option<String>)
        ensures
            final(self)@.data_variables == old(self)@.data_variables.push(
                (DataDescriptor { address, ty, name })@,
            ),
            final(self)@.functions == old(self)@.functions,
    {
        self.data_variables.push(DataDescriptor { address, ty, name });
        proof {
            assert(self@.data_variables =~= old(self)@.data_variables.push(
                self.data_variables@[self.data_variables@.len() - 1]@,
            ));
        }
    }
}

} // verus!
