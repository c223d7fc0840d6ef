use body_measurements::measurement::{
    WheightMeasurementEntity, WheightMeasurementInput, WheightMeasurementOutput,
};
use body_measurements::object_id::ObjectId;
use body_measurements::quantity::Quantity;

fn q(value: f32) -> Quantity {
    Quantity::from_bits(value.to_bits())
}

fn sample_input() -> WheightMeasurementInput {
    WheightMeasurementInput {
        // 2024-01-01T00:00:00Z
        date: 1_704_067_200_000,
        wheight_kg: q(80.0),
        imc: q(24.5),
        fat_percentage: q(20.0),
        water_percentage: q(55.0),
        protein_percentage: q(18.0),
        metabolism_kcal: q(1800.0),
        visceral_fat_index: q(8.0),
        muscle_kg: q(60.0),
        bone_kg: q(3.2),
        metabolic_age: 30,
    }
}

fn sample_id() -> ObjectId {
    ObjectId::from_bytes([0x65, 0x92, 0x00, 0x80, 1, 2, 3, 4, 5, 0xaa, 0xbb, 0xcc])
}

#[test]
fn entity_takes_every_field_of_the_input() {
    let input = sample_input();
    let entity = WheightMeasurementEntity::new(sample_id(), &input, q(16.0), q(75.0));
    assert_eq!(
        entity,
        WheightMeasurementEntity {
            _id: sample_id(),
            date: 1_704_067_200_000,
            wheight_kg: q(80.0),
            imc: q(24.5),
            fat_percentage: q(20.0),
            water_percentage: q(55.0),
            protein_percentage: q(18.0),
            metabolism_kcal: q(1800.0),
            visceral_fat_index: q(8.0),
            muscle_kg: q(60.0),
            bone_kg: q(3.2),
            metabolic_age: 30,
            fat_kg: q(16.0),
            muscle_percentage: q(75.0),
        }
    );
}

#[test]
fn from_entity_copies_the_stored_fields() {
    let input = sample_input();
    let entity = WheightMeasurementEntity::new(sample_id(), &input, q(16.0), q(75.0));
    let output = WheightMeasurementOutput::from_entity(entity);
    assert_eq!(output.id, "659200800102030405aabbcc");
    assert_eq!(output.date, 1_704_067_200_000);
    assert_eq!(output.wheight_kg, q(80.0));
    assert_eq!(output.imc, q(24.5));
    assert_eq!(output.fat_percentage, q(20.0));
    assert_eq!(output.water_percentage, q(55.0));
    assert_eq!(output.protein_percentage, q(18.0));
    assert_eq!(output.metabolism_kcal, q(1800.0));
    assert_eq!(output.visceral_fat_index, q(8.0));
    assert_eq!(output.muscle_kg, q(60.0));
    assert_eq!(output.bone_kg, q(3.2));
    assert_eq!(output.metabolic_age, 30);
    assert_eq!(output.fat_kg, q(16.0));
    assert_eq!(output.muscle_percentage, q(75.0));
}

#[test]
fn from_entity_sets_the_reserved_fields_to_zero() {
    let entity = WheightMeasurementEntity::new(sample_id(), &sample_input(), q(16.0), q(75.0));
    let output = WheightMeasurementOutput::from_entity(entity);
    assert_eq!(f32::from_bits(output.wheight_kg_diff.to_bits()), 0.0);
    assert_eq!(output.wheight_kg_diff.to_bits(), 0);
    assert_eq!(output.fat_percentage_diff.to_bits(), 0);
    assert_eq!(output.muscle_kg_diff.to_bits(), 0);
    assert_eq!(output.bone_kg_diff.to_bits(), 0);
    assert_eq!(output.fat_kg_diff.to_bits(), 0);
    assert_eq!(output.muscle_percentage_diff.to_bits(), 0);
}

#[test]
fn from_entity_does_not_recompute_the_derived_fields() {
    // Stored derived values that do not follow from the other fields are
    // reported as stored.
    let entity = WheightMeasurementEntity::new(sample_id(), &sample_input(), q(1.0), q(2.0));
    let output = WheightMeasurementOutput::from_entity(entity);
    assert_eq!(output.fat_kg, q(1.0));
    assert_eq!(output.muscle_percentage, q(2.0));
}

#[test]
fn from_entity_keeps_values_that_are_not_numbers() {
    let mut input = sample_input();
    input.fat_percentage = Quantity::from_bits(0x7fc0_0001);
    input.bone_kg = q(f32::NEG_INFINITY);
    input.date = -1;
    input.metabolic_age = 255;
    let entity =
        WheightMeasurementEntity::new(ObjectId::from_bytes([0; 12]), &input, q(f32::NAN), q(0.0));
    let output = WheightMeasurementOutput::from_entity(entity);
    assert_eq!(output.id, "000000000000000000000000");
    assert_eq!(output.fat_percentage.to_bits(), 0x7fc0_0001);
    assert_eq!(output.bone_kg, q(f32::NEG_INFINITY));
    assert_eq!(output.date, -1);
    assert_eq!(output.metabolic_age, 255);
    assert_eq!(output.fat_kg.to_bits(), f32::NAN.to_bits());
}

#[test]
fn derived_values_of_the_sample_reading() {
    // fat_kg = weight * (fat% / 100), muscle% = 100 * (muscle / weight)
    let weight = 80.0_f32;
    let fat_kg = weight * (20.0_f32 / 100_f32);
    let muscle_percentage = 100_f32 * (60.0_f32 / weight);
    assert_eq!(fat_kg, 16.0);
    assert_eq!(muscle_percentage, 75.0);
    let entity =
        WheightMeasurementEntity::new(sample_id(), &sample_input(), q(fat_kg), q(muscle_percentage));
    let output = WheightMeasurementOutput::from_entity(entity);
    assert_eq!(f32::from_bits(output.wheight_kg.to_bits()), 80.0);
    assert_eq!(f32::from_bits(output.fat_kg.to_bits()), 16.0);
    assert_eq!(f32::from_bits(output.muscle_percentage.to_bits()), 75.0);
}
