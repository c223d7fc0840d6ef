//! One body-composition reading in its three shapes: as it is submitted, as
//! it is stored, and as it is reported.

use vstd::prelude::*;
use crate::object_id::{encode_hex, ObjectId};
use crate::quantity::{Quantity, POSITIVE_ZERO_BITS};

verus! {

/// A reading as it is submitted. `date` counts milliseconds from the start
/// of 1970, UTC.
#[derive(Clone, Copy, Debug, PartialEq, Eq)]
pub struct WheightMeasurementInput {
    pub date: i64,
    pub wheight_kg: Quantity,
    pub imc: Quantity,
    pub fat_percentage: Quantity,
    pub water_percentage: Quantity,
    pub protein_percentage: Quantity,
    pub metabolism_kcal: Quantity,
    pub visceral_fat_index: Quantity,
    pub muscle_kg: Quantity,
    pub bone_kg: Quantity,
    pub metabolic_age: u8,
}

/// A reading as it is stored: what was submitted, the identifier it is kept
/// under, and the two quantities derived from it when it was recorded.
#[derive(Clone, Copy, Debug, PartialEq, Eq)]
pub struct WheightMeasurementEntity {
    pub _id: ObjectId,
    pub date: i64,
    pub wheight_kg: Quantity,
    pub imc: Quantity,
    pub fat_percentage: Quantity,
    pub water_percentage: Quantity,
    pub protein_percentage: Quantity,
    pub metabolism_kcal: Quantity,
    pub visceral_fat_index: Quantity,
    pub muscle_kg: Quantity,
    pub bone_kg: Quantity,
    pub metabolic_age: u8,
    pub fat_kg: Quantity,
    pub muscle_percentage: Quantity,
}

/// A reading as it is reported: the stored reading with its identifier as
/// text, and six fields reserved for the change since an earlier reading.
#[derive(Clone, Debug, PartialEq, Eq)]
pub struct WheightMeasurementOutput {
    pub id: String,
    pub date: i64,
    pub wheight_kg: Quantity,
    pub imc: Quantity,
    pub fat_percentage: Quantity,
    pub water_percentage: Quantity,
    pub protein_percentage: Quantity,
    pub metabolism_kcal: Quantity,
    pub visceral_fat_index: Quantity,
    pub muscle_kg: Quantity,
    pub bone_kg: Quantity,
    pub metabolic_age: u8,
    pub fat_kg: Quantity,
    pub muscle_percentage: Quantity,
    pub wheight_kg_diff: Quantity,
    pub fat_percentage_diff: Quantity,
    pub muscle_kg_diff: Quantity,
    pub bone_kg_diff: Quantity,
    pub fat_kg_diff: Quantity,
    pub muscle_percentage_diff: Quantity,
}

/// What a reported reading holds, with its identifier as a sequence of
/// characters.
pub ghost struct OutputView {
    pub id: Seq<char>,
    pub date: i64,
    pub wheight_kg: Quantity,
    pub imc: Quantity,
    pub fat_percentage: Quantity,
    pub water_percentage: Quantity,
    pub protein_percentage: Quantity,
    pub metabolism_kcal: Quantity,
    pub visceral_fat_index: Quantity,
    pub muscle_kg: Quantity,
    pub bone_kg: Quantity,
    pub metabolic_age: u8,
    pub fat_kg: Quantity,
    pub muscle_percentage: Quantity,
    pub wheight_kg_diff: Quantity,
    pub fat_percentage_diff: Quantity,
    pub muscle_kg_diff: Quantity,
    pub bone_kg_diff: Quantity,
    pub fat_kg_diff: Quantity,
    pub muscle_percentage_diff: Quantity,
}

impl View for WheightMeasurementOutput {
    type V = OutputView;

    open spec fn view(&self) -> OutputView {
        OutputView {
            id: self.id@,
            date: self.date,
            wheight_kg: self.wheight_kg,
            imc: self.imc,
            fat_percentage: self.fat_percentage,
            water_percentage: self.water_percentage,
            protein_percentage: self.protein_percentage,
            metabolism_kcal: self.metabolism_kcal,
            visceral_fat_index: self.visceral_fat_index,
            muscle_kg: self.muscle_kg,
            bone_kg: self.bone_kg,
            metabolic_age: self.metabolic_age,
            fat_kg: self.fat_kg,
            muscle_percentage: self.muscle_percentage,
            wheight_kg_diff: self.wheight_kg_diff,
            fat_percentage_diff: self.fat_percentage_diff,
            muscle_kg_diff: self.muscle_kg_diff,
            bone_kg_diff: self.bone_kg_diff,
            fat_kg_diff: self.fat_kg_diff,
            muscle_percentage_diff: self.muscle_percentage_diff,
        }
    }
}

/// The value of a field reserved for a change since an earlier reading:
/// positive zero.
pub open spec fn reserved_diff() -> Quantity {
    Quantity { bits: POSITIVE_ZERO_BITS }
}

/// The stored reading made of a submitted one, the identifier it is kept
/// under, and the two derived quantities.
pub open spec fn entity_of(
    id: ObjectId,
    input: WheightMeasurementInput,
    fat_kg: Quantity,
    muscle_percentage: Quantity,
) -> WheightMeasurementEntity {
    WheightMeasurementEntity {
        _id: id,
        date: input.date,
        wheight_kg: input.wheight_kg,
        imc: input.imc,
        fat_percentage: input.fat_percentage,
        water_percentage: input.water_percentage,
        protein_percentage: input.protein_percentage,
        metabolism_kcal: input.metabolism_kcal,
        visceral_fat_index: input.visceral_fat_index,
        muscle_kg: input.muscle_kg,
        bone_kg: input.bone_kg,
        metabolic_age: input.metabolic_age,
        fat_kg,
        muscle_percentage,
    }
}

/// What is reported of a stored reading: every stored field unchanged, the
/// identifier as lower-case hexadecimal text, each reserved field zero.
pub open spec fn output_of(entity: WheightMeasurementEntity) -> OutputView {
    OutputView {
        id: encode_hex(entity._id@),
        date: entity.date,
        wheight_kg: entity.wheight_kg,
        imc: entity.imc,
        fat_percentage: entity.fat_percentage,
        water_percentage: entity.water_percentage,
        protein_percentage: entity.protein_percentage,
        metabolism_kcal: entity.metabolism_kcal,
        visceral_fat_index: entity.visceral_fat_index,
        muscle_kg: entity.muscle_kg,
        bone_kg: entity.bone_kg,
        metabolic_age: entity.metabolic_age,
        fat_kg: entity.fat_kg,
        muscle_percentage: entity.muscle_percentage,
        wheight_kg_diff: reserved_diff(),
        fat_percentage_diff: reserved_diff(),
        muscle_kg_diff: reserved_diff(),
        bone_kg_diff: reserved_diff(),
        fat_kg_diff: reserved_diff(),
        muscle_percentage_diff: reserved_diff(),
    }
}

impl WheightMeasurementEntity {
    /// The reading to store for `input` under `id`, with the derived
    /// quantities `fat_kg` and `muscle_percentage`.
    pub fn new(
        id: ObjectId,
        input: &WheightMeasurementInput,
        fat_kg: Quantity,
        muscle_percentage: Quantity,
    ) -> (entity: WheightMeasurementEntity)
        ensures
            entity == entity_of(id, *input, fat_kg, muscle_percentage),
    {
        WheightMeasurementEntity {
            _id: id,
            date: input.date,
            wheight_kg: input.wheight_kg,
            imc: input.imc,
            fat_percentage: input.fat_percentage,
            water_percentage: input.water_percentage,
            protein_percentage: input.protein_percentage,
            metabolism_kcal: input.metabolism_kcal,
            visceral_fat_index: input.visceral_fat_index,
            muscle_kg: input.muscle_kg,
            bone_kg: input.bone_kg,
            metabolic_age: input.metabolic_age,
            fat_kg,
            muscle_percentage,
        }
    }
}

impl WheightMeasurementOutput {
    /// The report of a stored reading.
    pub fn from_entity(entity: WheightMeasurementEntity) -> (output: Self)
        ensures
            output@ == output_of(entity),
    {
        WheightMeasurementOutput {
            id: entity._id.to_hex(),
            date: entity.date,
            wheight_kg: entity.wheight_kg,
            imc: entity.imc,
            fat_percentage: entity.fat_percentage,
            water_percentage: entity.water_percentage,
            protein_percentage: entity.protein_percentage,
            metabolism_kcal: entity.metabolism_kcal,
            visceral_fat_index: entity.visceral_fat_index,
            muscle_kg: entity.muscle_kg,
            bone_kg: entity.bone_kg,
            metabolic_age: entity.metabolic_age,
            fat_kg: entity.fat_kg,
            muscle_percentage: entity.muscle_percentage,
            wheight_kg_diff: Quantity::zero(),
            fat_percentage_diff: Quantity::zero(),
            muscle_kg_diff: Quantity::zero(),
            bone_kg_diff: Quantity::zero(),
            fat_kg_diff: Quantity::zero(),
            muscle_percentage_diff: Quantity::zero(),
        }
    }
}

} // verus!
