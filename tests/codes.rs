use csuperlu::options::{colperm_t, fact_t, milu_t, norm_t, rowperm_t, trans_t, yes_no_t, IterRefine_t};
use csuperlu::super_matrix::{Dtype_t, Mtype_t, Stype_t};

#[test]
fn precision_codes_follow_native_order() {
    assert_eq!(Dtype_t::SLU_S.to_c_int(), 0);
    assert_eq!(Dtype_t::SLU_D.to_c_int(), 1);
    assert_eq!(Dtype_t::SLU_C.to_c_int(), 2);
    assert_eq!(Dtype_t::SLU_Z.to_c_int(), 3);
}

#[test]
fn storage_and_property_codes_follow_native_order() {
    assert_eq!(Stype_t::SLU_NC.to_c_int(), 0);
    assert_eq!(Stype_t::SLU_NR.to_c_int(), 2);
    assert_eq!(Stype_t::SLU_SC.to_c_int(), 3);
    assert_eq!(Stype_t::SLU_DN.to_c_int(), 6);
    assert_eq!(Stype_t::SLU_NR_loc.to_c_int(), 7);
    assert_eq!(Mtype_t::SLU_GE.to_c_int(), 0);
    assert_eq!(Mtype_t::SLU_TRU.to_c_int(), 4);
    assert_eq!(Mtype_t::SLU_HEU.to_c_int(), 8);
}

#[test]
fn option_codes_follow_native_order() {
    assert_eq!(yes_no_t::NO.to_c_int(), 0);
    assert_eq!(yes_no_t::YES.to_c_int(), 1);
    assert_eq!(fact_t::FACTORED.to_c_int(), 3);
    assert_eq!(colperm_t::NATURAL.to_c_int(), 0);
    assert_eq!(colperm_t::COLAMD.to_c_int(), 3);
    assert_eq!(colperm_t::MY_PERMC.to_c_int(), 7);
    assert_eq!(trans_t::CONJ.to_c_int(), 2);
    assert_eq!(IterRefine_t::SLU_DOUBLE.to_c_int(), 2);
    assert_eq!(rowperm_t::LargeDiag_MC64.to_c_int(), 1);
    assert_eq!(norm_t::INF_NORM.to_c_int(), 2);
    assert_eq!(milu_t::SMILU_3.to_c_int(), 3);
}
