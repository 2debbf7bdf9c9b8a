//! The raw limb data of permutation width 3: the `(8 + 57) * 3`
//! additive round constants and the `3 * 3` row-major mixing matrix,
//! each entry a canonical field value below the modulus, little-endian in
//! four 64-bit limbs.

use vstd::prelude::*;

verus! {

use vstd::slice::slice_to_vec;

const C_T3: [[u64; 4]; 195] = [
    [10169643024046198382, 1496489459468413331, 15013179087956216865, 1074572035719075096],
    [6239455757362194532, 9834463921409911007, 6450940760387492813, 67910589270332556],
    [16751688058965816309, 3514822508764902252, 2245502192544547001, 639497164796119454],
    [2348173180299641296, 6251932254013741678, 14109259725315707848, 3397893802321178182],
    [10052922493383044338, 13214685027855777508, 2600475563429683764, 3110546625639709581],
    [16594432877155917050, 6436419528597111786, 14746450667121398997, 223438775977242494],
    [10301900068242346605, 14463238905455560233, 9959550014935311931, 2918681975259572866],
    [1515787476805471096, 2320345919784178364, 17402400686162957325, 2821337195423189251],
    [13329421459288540722, 7997218926952286166, 16666341364125177037, 2544186741652662210],
    [14815153299398317096, 12326536988431973148, 9189081236192950112, 1564197350901735823],
    [15492898315278275062, 10236271341713535282, 6834674029815110883, 993319518520783711],
    [10916819061073399196, 16883629385166233580, 6921874708522579303, 2003422334954896330],
    [1714630715101799769, 14370321670889575288, 16856964725142963021, 1176014593347144415],
    [16756379877222262774, 2968515920474853548, 11179479702445996788, 2264545440983580541],
    [14570479280712353541, 18444734288884600265, 15176568821682145435, 2131985990035738644],
    [10368363968134106237, 12047691299872059909, 12705208366813915547, 351098625659878575],
    [17792640394833160232, 9696427064407893159, 1520876545687531284, 464672949723461184],
    [11511719757092779449, 908211774484017294, 12831319216039648607, 691674951170147412],
    [9510773949154959270, 5252381917909929361, 8955462025988621972, 372877525797294092],
    [1587374528693423580, 9430068611203050871, 12735463350683146671, 831949795656129422],
    [13358750343521025489, 5314631703920803920, 6493880948315916231, 1268631432301053871],
    [14849984304993963273, 3191591746076102373, 2677903913737681795, 222096387432894843],
    [13720721153165534565, 6013694977031309706, 4391455072429085237, 3226292761893557358],
    [10579744368738693369, 4762779664445951531, 5823120412175020918, 22573339300296900],
    [9870159944135898805, 7235529342485293563, 13480538772416018769, 2536150988941404724],
    [16720789321578578560, 2522999998976288164, 14519837292043943523, 416852298297550563],
    [17158443766907913819, 5961907595872497041, 13404357466265350738, 755230009370792854],
    [6770390416031239872, 17390336258944747484, 12772936794330968795, 3058989918289202421],
    [8549908775410123872, 17012614519708971561, 10615274498289114563, 1930267710583523745],
    [10382466218761732032, 2783011596995200052, 4587954668146979961, 1351136628495840386],
    [9387305021536313998, 5949266803577039558, 9176955995885039695, 825414034829436333],
    [3651076418516780104, 8972364766045991658, 15788598065422186641, 251119977008056894],
    [5043382280892331119, 15357393874202951105, 16800243441893211803, 407154788704645140],
    [8892180399712360046, 4645155678429152180, 7968129386745339652, 3001532499684763796],
    [5799476994968113711, 7965868846460524636, 5018001173082862978, 2324871211209925355],
    [5344206134167390343, 13497554678722349933, 10730987543428800497, 3317931201752125258],
    [16632037294831661512, 1693965690577373394, 14571655515630349125, 1459114695872543527],
    [14430416535844145905, 17897610966497868991, 6311387765811975117, 893062843581543608],
    [17384577287839799891, 16667598527773455984, 5115149256409481050, 183011890581373942],
    [2654438065656423180, 7668446424519157688, 6893111809130332402, 3336873827275337690],
    [13358667107604709390, 9882503929482424440, 7194379942859558459, 36531667966592230],
    [13441731135665126200, 16305593838641322507, 1764900527919325278, 3374868242345334601],
    [11029036156622950918, 3767439400139705484, 5458142085128053488, 3481451364176733008],
    [12056858118866257581, 17339159417937361729, 2457694693050504889, 2035381829023865427],
    [1659725671961508204, 14153602109795078942, 330192436874582254, 1203842034152894467],
    [259699493296123375, 15961029778693674869, 4457811829436721853, 3033599411683850228],
    [6678010397103840401, 13421605108260313849, 18365044507182290269, 2050525847674035638],
    [11254465069202884256, 11407387557876501754, 16913602912723147595, 527834611401260952],
    [9948922113988233040, 2908314857315156352, 11624323827010875732, 2402506864120038473],
    [8375966539063315102, 13612191774966483206, 625257772314144528, 3393392318161610646],
    [16601869878711972622, 10913809729668532042, 12078243733072605372, 3262715235694311176],
    [15608316279448174251, 12662471127068531388, 10439508139178259089, 1598586842980050115],
    [8608532833637053201, 15539768828324126602, 2760369212817214746, 3120064577965505096],
    [4779699930828877946, 7904642866356798671, 2142298301270611063, 3210992535745164252],
    [16566647052584656297, 11392807339846396333, 17509790013340347161, 2120971635856277866],
    [5536220222296839465, 18007269287740125490, 16988379011452997949, 2326967073555529329],
    [5762632206312391938, 11442382750973961555, 5697416040074198063, 886287582240954391],
    [11124293347412048724, 2187704089670443107, 11696998627716706352, 1678389218646739097],
    [4222149753036133103, 16909372562319609761, 17823522529666649570, 1915744512019107209],
    [9386254665973801738, 369343627046108186, 15055393180748924159, 463031500367058716],
    [2811225156588656644, 4043324678723349205, 2419972489884392763, 3047898763605249269],
    [16526798864378746441, 6805642193013234135, 5181939895697731017, 1417276069191301076],
    [5489393743654840986, 13956742994665100569, 1860634826424985449, 1234361436619539990],
    [695054542422134769, 12019305300333709961, 9843681412023287159, 67383789733625196],
    [9537157493527123923, 4615195029880018393, 10026734106030658022, 1019300322962990368],
    [5063327708825434761, 4132830927089380748, 2617264721062385806, 3023383046488159874],
    [1028346471269770686, 6490335944564795927, 16130261465708739976, 3050889264512630458],
    [17168111284362386161, 17486960142991188712, 17076376746195272713, 2054593364731744093],
    [15262887479649442245, 9505100495929542591, 13855096146465136747, 1520808608629131791],
    [16676344953669021952, 12246747301111320017, 13957281728738336067, 343989352091453469],
    [11421158882397661543, 5440847660503758404, 1213793981452479827, 1419614475451705339],
    [10601982260714973412, 3234541434695713580, 17688098355818888058, 118717801572347293],
    [9449177667644177154, 5375657923623462618, 6543835113666090251, 3076897632389067651],
    [11492857592340264518, 12443281895567735798, 2310318942922528275, 2111500766629273819],
    [1519060835352555293, 13341127823664892785, 10328870498885827883, 293460558823836962],
    [299896046629691334, 11021848952288240530, 2040032867427221576, 1534260234819767393],
    [4982201902518914468, 5815106221790245040, 4534518171699180816, 807161977694049528],
    [9362303805132752942, 11020562407162685405, 6099272804889998405, 672695088330099010],
    [3829537558432663078, 12224726650097720431, 2790510079905979068, 465113627828659524],
    [12434856935128332283, 4099816137562300822, 5291509800583676536, 1087889381526684220],
    [3058931662356704787, 5455375754292263881, 9999573367242040862, 357735772164585264],
    [13940484895148816216, 9804876323883312219, 13953255888728739331, 3122849638617761013],
    [9511239974733687279, 10237687677678873181, 15913306046644034507, 1312634215549218900],
    [10675073936499958761, 12216566237822522633, 9866914788429900494, 2398083397542529034],
    [16885311708936791373, 7241347522894119874, 1903990226363296297, 1142822869681276272],
    [10686875188351513074, 13614366883246235843, 16098305773841909460, 1312582147797590020],
    [15963606144910950453, 11980267062975283715, 12501611241057470952, 2442346185398548571],
    [9980420217207238983, 13074906607698438413, 16119634457238226018, 1595462938248686755],
    [11617670042665110210, 12376478257583768892, 17757582124498240376, 2232629200712726708],
    [4280439214426330778, 15305717883324493701, 9837552695788434311, 570372229075787216],
    [12249253053461168316, 7282067329116856604, 13237337846485506915, 407792342528658083],
    [3286879747248941119, 4573432664601249672, 18158049416766721452, 2373493147218089556],
    [11230019463442324329, 7912136838618106113, 10841000784467734883, 333599382087531880],
    [16473825850870796314, 13624353028681918311, 16451401310565375468, 2875703994879278542],
    [1687796451943245009, 7928980879331832355, 13305261426485117430, 3453928292668169945],
    [7598338644619817656, 10729144591383079437, 4630335118873107699, 2222469752301051004],
    [16080230830081207066, 12423042439722618314, 1549230324095215118, 1545911809876140835],
    [2904543854463076229, 8579485197604225815, 14453736105001743365, 1921955480208825986],
    [17038711017906273399, 9452543770650697585, 18004737915611345751, 2703598197550172048],
    [998897782403394151, 6032549410726290231, 14877717775171186163, 1559795874367549122],
    [3392697467836765991, 15922000626033260368, 1079313812342659430, 2599093181141465496],
    [6377813262293748891, 5181859273934949669, 1433048174057411302, 13070502006410567],
    [4145621046567048658, 12650345898048364247, 10942059026714787025, 3456438562529005033],
    [16806278217174170814, 3356626440802756849, 6836507271113723160, 52217025170580825],
    [9040885813031482642, 2063783757152207784, 9696596405493190145, 733897032897314666],
    [9163181484798974349, 1106091070615971483, 4199500626945875606, 10275305867431991],
    [5830843384116006313, 4139255191202704419, 2940723024787082394, 1665582135731026707],
    [11317622713099790344, 6974195757466602969, 8072839204361927383, 1660226640530079177],
    [5201316823598627553, 14715480498374840762, 3383068957560025966, 3002673069591357036],
    [13094889931869145459, 16648982407050338536, 18289605278935059783, 2205569170731292504],
    [11285488793507827465, 18350717580005913679, 6410861464604314458, 2148895943228264365],
    [6709750789426163512, 8992917079336798153, 4616613824157795742, 2507867874581904081],
    [15400784301878071037, 18244452579437791868, 4224191343226798030, 1076433859378617427],
    [4264996793658278532, 1376105531089050016, 17476204074859227269, 1252174447925563362],
    [626157971226405295, 18360428839510729767, 11418101606126458807, 1253929125255671226],
    [17894393997393060966, 1693282321587506006, 10610815137722143707, 3307095170886567317],
    [8412444619122534829, 17661690963694250141, 11127731205362461725, 3460712092451636609],
    [7076365036357439622, 2996018067437664761, 18288959755437174594, 3095133733569333888],
    [9345554969304508355, 9734718780845491687, 16548111906976335323, 1269566828719773023],
    [14985592217270212608, 13047571069448810567, 1768764949568828727, 1744502220636328542],
    [7800483618336468662, 15083323447214890130, 5582574125022657056, 2891339774727348131],
    [5365510678292251879, 9677253646602045298, 10729843634325729280, 594190901955360016],
    [11387234443688137019, 1279424678775871569, 7014609431566646248, 824027491960199506],
    [1457211823867907931, 6383027606162415120, 7228109047101594260, 1065216652437508569],
    [61141279752947089, 17065237724822033421, 1927762415130120514, 3094885811492450599],
    [3912754945728835960, 3771356032485721483, 15031711080582401655, 815716758723016167],
    [14565351617278385472, 11584783007181865516, 15626181124208896302, 805425446120956330],
    [16142621932647703252, 6320039675520759995, 15672753973526549481, 2267858513861341332],
    [15749878102686188083, 614109551756748456, 12585727881591095317, 104123295342755102],
    [8512653459191138419, 8722136429807568464, 3646779388833721243, 877373150580798793],
    [6717122165374165389, 8988252081842455491, 5645968194207689527, 1252839797334746901],
    [1595382035876223936, 2894788246433044882, 7254516605129339151, 3392435059111642139],
    [13998303702462746555, 13567266803394983698, 11055620437644727489, 2193238868414204989],
    [8541111410171021429, 15510862156074330629, 7499768617590159362, 129069364530034896],
    [836365385714984206, 7494700099001437856, 9725935530670171100, 2267339694435901381],
    [5135733616265261081, 2426332595100882671, 4656936268612107177, 2675901305471578230],
    [10151513934083020635, 3753973305408449599, 5932656183844634499, 2589779655048364701],
    [7411025101745302873, 6707027749470441567, 14604097463168980328, 3152993128539731999],
    [9228435110421995615, 7077145627258986441, 8287837705857547985, 1122529595160356003],
    [14632877491481866408, 1722445538081828426, 7473487843190403406, 2549223116576907002],
    [7911624047840495944, 13006776561127361280, 9244905133407413598, 1551237582814894454],
    [5734626924445778447, 3904426628295653716, 758384697192160672, 1817860466175176350],
    [16442809390655319567, 4264455610716866612, 3430587810186965360, 3042544677360207512],
    [12976680908701618498, 9884505158002686887, 4506805106606625170, 1754597687761070431],
    [4651435674279269163, 3103468488976219594, 86770003631272336, 351588734636199512],
    [2260337876880351011, 12758337300762156683, 4666632919716891739, 1142547878393382557],
    [12238467918978150848, 8498440410987792772, 12272022433944218978, 399903969432840125],
    [15083162859014497690, 2572883854687877808, 5295861190485996843, 1405947505286439302],
    [16277807055507155125, 9178820837597334391, 583720080208146622, 235956917338752750],
    [12275617654227012184, 8055449209487420250, 18443150053558188092, 2591750978202878614],
    [1829412907376403186, 1784551171442285202, 9110382820117307087, 745804616459797009],
    [17636728153934123131, 16340444422133123832, 13081815878669958460, 498866876760309842],
    [10821885995694136577, 12723584804667044276, 5146301989088820936, 1263385986896629429],
    [10800072172023390641, 5971967654560104426, 6545357310958328301, 1429505446243742742],
    [18269496140486461307, 16002478335803382869, 8120489888303010331, 1628640051152447506],
    [18122091663874610253, 4233014431675774575, 17240608988078162137, 355592338756513175],
    [15417051770040314348, 1867975149401080782, 1066645743524851259, 2697118902655154489],
    [11529920096058011314, 8488218827988262189, 16569498673561862223, 3463317764937792863],
    [2293207290640910226, 307269496307905699, 2019605757530151924, 1196143593917332415],
    [17054418173490849888, 11471621437112287983, 2736637320199971288, 1819134904140512630],
    [17466733393954671453, 15116232513785238565, 15003334136884310855, 1735727526517594389],
    [3018231278213947665, 11756906826253427310, 865102719128852662, 2970189933199996587],
    [53857651063310097, 8083318015622867638, 11670144255177893450, 1181189051546590777],
    [7264345978047633403, 3427453013614820152, 17687308340198489875, 858883541620126021],
    [16139757679130157878, 3528952606930721195, 15856398903938866312, 1645649108355563827],
    [18259613611884802074, 744602176078339578, 4356130164393161908, 750620222363875571],
    [8117441027290110048, 12767141919626113394, 10277542331312621822, 1902664590289501020],
    [18142567679047472086, 2784389961213710191, 4140168213814042183, 684823272106514114],
    [282509298302633771, 14901915657276303392, 13769774206967582656, 1592939612075046988],
    [15029079146827225611, 5277947701434344677, 10740941382983966314, 781955803547370784],
    [13046325154127803473, 15271841070263964187, 3603800691510092686, 1905881597770513026],
    [18147836268617712982, 10413298699095885023, 9327065618741831658, 3206880635179173199],
    [7961104417159548784, 13344422238921471806, 11924406431390384663, 2052665222524073279],
    [13005032304728461175, 17582243758993224695, 10248473147828664992, 3231875006450919708],
    [9604737890175299306, 11952591534011753808, 14943182360968004505, 2593879447300027479],
    [16136936607574934125, 12635460431001064455, 14910545630443985360, 690275998716546918],
    [9974859801427953200, 8970509559472668454, 13147802568752216335, 1769242106777687234],
    [16195182707833107583, 15827858176195376533, 9364816585327216436, 3481532623310383999],
    [11349797944779537784, 7848337389964465624, 1585489724280364098, 1562486739353219241],
    [299574738534894284, 15774196221256035113, 11560070881270290821, 2136624426723258025],
    [16521154246496397771, 5642919338817456453, 17724106494152086094, 2852725321712119593],
    [8984735811309350240, 2167745649215877194, 226808028189901552, 2318647723425753931],
    [11717711903977946719, 11734121989528668209, 1543209836968400498, 679312990471436121],
    [7167914974923007396, 4867725154692709913, 9475724683532666747, 382518031130098914],
    [7263451747656492529, 15612406511579619656, 15794977949985463993, 1951799731841132862],
    [14253531380344450780, 17149421595627640462, 18275357549111665566, 2442398084493626838],
    [8882024121061072648, 14660249638811034002, 2479936304909085374, 2088357835029043913],
    [3009881635143434496, 3213792448625028097, 13467690131828994998, 1090178415541778203],
    [13614238871538377504, 14133257625619989830, 12680744397006639806, 1617164053432527250],
    [15283478423327660144, 13704112697969002700, 3365542576422386393, 1127004209850885532],
    [9649179334161025978, 15235357479981583552, 6326192347223033870, 1818343763663989123],
    [14849751341126543608, 11488527144984798584, 9120114908867576777, 1164989258755683746],
    [4658640436750183089, 3560836902621619118, 16331544763316127153, 1144107236774418521],
    [16764062968747494690, 3289301024319987453, 599939870177378126, 2409257677298851547],
    [17910303629776146785, 4333503720265116478, 5349829146288687643, 2136215616631132703],
];

const M_T3: [[u64; 4]; 9] = [
    [18364386637727142283, 10718140578549479307, 12877775606795118513, 1196690043610129609],
    [15476133327266186208, 10598338402256349781, 7701464610378726588, 1652049073940316358],
    [8726449643484246893, 17800103023430280315, 17732896993093103117, 3139215236411295113],
    [15431936778085062513, 3227108208197516766, 13385661772669246410, 2984182855068918912],
    [3004517874245172771, 13302916677726082624, 5519286447998647745, 3324810986103434297],
    [14459594221771332602, 1480925685775052901, 10894586239177917757, 1157550379892963766],
    [3630540040312041895, 16631083012873467731, 963663003087537756, 1454699978888462131],
    [12784839371101448465, 15012715472039172022, 9414510034565922201, 1687935244450844709],
    [8297773286174348768, 11980778987040554871, 1709819669659146559, 1847597393482099700],
];

/// The shipped additive-constant data of width 3.
pub closed spec fn c3_data() -> Seq<[u64; 4]> {
    C_T3@
}

/// The shipped mixing-matrix data of width 3, row-major.
pub closed spec fn m3_data() -> Seq<[u64; 4]> {
    M_T3@
}

/// The additive round constants of width 3, pinned to the shipped data.
pub fn c_t3() -> (v: Vec<[u64; 4]>)
    ensures
        v@ == c3_data(),
        v@.len() == 195,
{
    slice_to_vec(C_T3.as_slice())
}

/// The mixing matrix of width 3, pinned to the shipped data.
pub fn m_t3() -> (v: Vec<[u64; 4]>)
    ensures
        v@ == m3_data(),
        v@.len() == 9,
{
    slice_to_vec(M_T3.as_slice())
}

} // verus!
